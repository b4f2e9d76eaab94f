//! GitHub data as the GraphQL API returns it, and the flatter records that
//! this service hands back to its callers.

use vstd::prelude::*;
use vstd::std_specs::convert::FromSpecImpl;

verus! {

/// A `totalCount` connection of repositories.
#[allow(non_snake_case)]
pub struct GitHubRepoCount {
    pub totalCount: u64,
}

/// A `totalCount` connection of followers.
#[allow(non_snake_case)]
pub struct GitHubFollowerCount {
    pub totalCount: u64,
}

/// A `totalCount` connection of followed users.
#[allow(non_snake_case)]
pub struct GitHubFollowingCount {
    pub totalCount: u64,
}

/// A user's contribution totals (only queried when a token is configured).
#[allow(non_snake_case)]
pub struct ContributionsCollection {
    pub totalCommitContributions: u64,
    pub totalPullRequestContributions: u64,
    pub totalIssueContributions: u64,
    pub restrictedContributionsCount: u64,
}

/// A user as GitHub's GraphQL API describes it.
#[allow(non_snake_case)]
pub struct GitHubUserGraphQL {
    pub login: String,
    pub id: String,
    pub avatarUrl: String,
    pub url: String,
    pub name: Option<String>,
    pub company: Option<String>,
    pub location: Option<String>,
    pub email: Option<String>,
    pub bio: Option<String>,
    pub repositories: Option<GitHubRepoCount>,
    pub followers: Option<GitHubFollowerCount>,
    pub following: Option<GitHubFollowingCount>,
    pub createdAt: String,
    pub updatedAt: String,
    pub starredRepositories: Option<GitHubRepoCount>,
    pub contributionsCollection: Option<ContributionsCollection>,
}

/// The user profile this service answers with.
pub struct GitHubUser {
    pub login: String,
    pub id: String,
    pub avatar_url: String,
    pub html_url: String,
    pub name: Option<String>,
    pub company: Option<String>,
    pub location: Option<String>,
    pub email: Option<String>,
    pub bio: Option<String>,
    pub public_repos: u64,
    pub followers: u64,
    pub following: u64,
    pub created_at: String,
    pub updated_at: String,
    pub private_repos: Option<u64>,
    pub starred_repos: Option<u64>,
    pub total_commits: Option<u64>,
    pub total_prs: Option<u64>,
    pub total_issues: Option<u64>,
}

/// A repository's primary language.
pub struct Language {
    pub name: String,
    pub color: Option<String>,
}

/// A `totalCount` connection of watchers.
#[allow(non_snake_case)]
pub struct WatcherCount {
    pub totalCount: u64,
}

/// A `totalCount` connection of issues.
#[allow(non_snake_case)]
pub struct IssueCount {
    pub totalCount: u64,
}

/// A repository's license.
#[allow(non_snake_case)]
pub struct LicenseInfo {
    pub name: String,
    pub spdxId: String,
}

/// A repository as GitHub's GraphQL API describes it.
#[allow(non_snake_case)]
pub struct GitHubRepoGraphQL {
    pub name: String,
    pub description: Option<String>,
    pub url: String,
    pub primaryLanguage: Option<Language>,
    pub stargazerCount: u64,
    pub forkCount: u64,
    pub watchers: Option<WatcherCount>,
    pub issues: Option<IssueCount>,
    pub createdAt: String,
    pub updatedAt: String,
    pub pushedAt: Option<String>,
    pub isPrivate: bool,
    pub isFork: bool,
    pub isArchived: bool,
    pub diskUsage: Option<u64>,
    pub homepageUrl: Option<String>,
    pub licenseInfo: Option<LicenseInfo>,
}

/// The repository record this service answers with.
pub struct GitHubRepo {
    pub name: String,
    pub description: Option<String>,
    pub html_url: String,
    pub language: Option<String>,
    pub language_color: Option<String>,
    pub stargazers_count: u64,
    pub forks_count: u64,
    pub watchers_count: u64,
    pub open_issues_count: u64,
    pub created_at: String,
    pub updated_at: String,
    pub pushed_at: Option<String>,
    pub is_private: bool,
    pub is_fork: bool,
    pub is_archived: bool,
    pub disk_usage: Option<u64>,
    pub homepage: Option<String>,
    pub license: Option<String>,
}

/// The user record that a GraphQL user becomes: names and texts are carried
/// over, missing counts become 0, the extended counts stay absent when GitHub
/// sent none, and the number of private repositories is never reported.
pub open spec fn user_from_graphql(user: GitHubUserGraphQL) -> GitHubUser {
    GitHubUser {
        login: user.login,
        id: user.id,
        avatar_url: user.avatarUrl,
        html_url: user.url,
        name: user.name,
        company: user.company,
        location: user.location,
        email: user.email,
        bio: user.bio,
        public_repos: match user.repositories {
            Some(r) => r.totalCount,
            None => 0,
        },
        followers: match user.followers {
            Some(f) => f.totalCount,
            None => 0,
        },
        following: match user.following {
            Some(f) => f.totalCount,
            None => 0,
        },
        created_at: user.createdAt,
        updated_at: user.updatedAt,
        private_repos: None,
        starred_repos: match user.starredRepositories {
            Some(r) => Some(r.totalCount),
            None => None,
        },
        total_commits: match user.contributionsCollection {
            Some(c) => Some(c.totalCommitContributions),
            None => None,
        },
        total_prs: match user.contributionsCollection {
            Some(c) => Some(c.totalPullRequestContributions),
            None => None,
        },
        total_issues: match user.contributionsCollection {
            Some(c) => Some(c.totalIssueContributions),
            None => None,
        },
    }
}

/// The repository record that a GraphQL repository becomes: the language's
/// name and colour are split out, missing watcher and issue counts become 0,
/// and of the license only its name is kept.
pub open spec fn repo_from_graphql(repo: GitHubRepoGraphQL) -> GitHubRepo {
    GitHubRepo {
        name: repo.name,
        description: repo.description,
        html_url: repo.url,
        language: match repo.primaryLanguage {
            Some(l) => Some(l.name),
            None => None,
        },
        language_color: match repo.primaryLanguage {
            Some(l) => l.color,
            None => None,
        },
        stargazers_count: repo.stargazerCount,
        forks_count: repo.forkCount,
        watchers_count: match repo.watchers {
            Some(w) => w.totalCount,
            None => 0,
        },
        open_issues_count: match repo.issues {
            Some(i) => i.totalCount,
            None => 0,
        },
        created_at: repo.createdAt,
        updated_at: repo.updatedAt,
        pushed_at: repo.pushedAt,
        is_private: repo.isPrivate,
        is_fork: repo.isFork,
        is_archived: repo.isArchived,
        disk_usage: repo.diskUsage,
        homepage: repo.homepageUrl,
        license: match repo.licenseInfo {
            Some(l) => Some(l.name),
            None => None,
        },
    }
}

impl From<GitHubUserGraphQL> for GitHubUser {
    fn from(user: GitHubUserGraphQL) -> (res: Self) {
        let GitHubUserGraphQL {
            login,
            id,
            avatarUrl,
            url,
            name,
            company,
            location,
            email,
            bio,
            repositories,
            followers,
            following,
            createdAt,
            updatedAt,
            starredRepositories,
            contributionsCollection,
        } = user;
        let public_repos = match repositories {
            Some(r) => r.totalCount,
            None => 0,
        };
        let followers = match followers {
            Some(f) => f.totalCount,
            None => 0,
        };
        let following = match following {
            Some(f) => f.totalCount,
            None => 0,
        };
        let starred_repos = match starredRepositories {
            Some(r) => Some(r.totalCount),
            None => None,
        };
        let (total_commits, total_prs, total_issues) = match contributionsCollection {
            Some(c) => (
                Some(c.totalCommitContributions),
                Some(c.totalPullRequestContributions),
                Some(c.totalIssueContributions),
            ),
            None => (None, None, None),
        };
        GitHubUser {
            login,
            id,
            avatar_url: avatarUrl,
            html_url: url,
            name,
            company,
            location,
            email,
            bio,
            public_repos,
            followers,
            following,
            created_at: createdAt,
            updated_at: updatedAt,
            private_repos: None,
            starred_repos,
            total_commits,
            total_prs,
            total_issues,
        }
    }
}

impl FromSpecImpl<GitHubUserGraphQL> for GitHubUser {
    open spec fn obeys_from_spec() -> bool {
        true
    }

    open spec fn from_spec(v: GitHubUserGraphQL) -> GitHubUser {
        user_from_graphql(v)
    }
}

impl From<GitHubRepoGraphQL> for GitHubRepo {
    fn from(repo: GitHubRepoGraphQL) -> (res: Self) {
        let GitHubRepoGraphQL {
            name,
            description,
            url,
            primaryLanguage,
            stargazerCount,
            forkCount,
            watchers,
            issues,
            createdAt,
            updatedAt,
            pushedAt,
            isPrivate,
            isFork,
            isArchived,
            diskUsage,
            homepageUrl,
            licenseInfo,
        } = repo;
        let (language, language_color) = match primaryLanguage {
            Some(l) => (Some(l.name), l.color),
            None => (None, None),
        };
        let watchers_count = match watchers {
            Some(w) => w.totalCount,
            None => 0,
        };
        let open_issues_count = match issues {
            Some(i) => i.totalCount,
            None => 0,
        };
        let license = match licenseInfo {
            Some(l) => Some(l.name),
            None => None,
        };
        GitHubRepo {
            name,
            description,
            html_url: url,
            language,
            language_color,
            stargazers_count: stargazerCount,
            forks_count: forkCount,
            watchers_count,
            open_issues_count,
            created_at: createdAt,
            updated_at: updatedAt,
            pushed_at: pushedAt,
            is_private: isPrivate,
            is_fork: isFork,
            is_archived: isArchived,
            disk_usage: diskUsage,
            homepage: homepageUrl,
            license,
        }
    }
}

impl FromSpecImpl<GitHubRepoGraphQL> for GitHubRepo {
    open spec fn obeys_from_spec() -> bool {
        true
    }

    open spec fn from_spec(v: GitHubRepoGraphQL) -> GitHubRepo {
        repo_from_graphql(v)
    }
}

/// Converts every repository of a GraphQL listing, keeping their order.
pub fn repos_from_graphql(nodes: Vec<GitHubRepoGraphQL>) -> (repos: Vec<GitHubRepo>)
    ensures
        repos@.len() == nodes@.len(),
        forall|i: int| 0 <= i < nodes@.len() ==> #[trigger] repos@[i] == repo_from_graphql(nodes@[i]),
{
    let ghost all = nodes@;
    let mut repos: Vec<GitHubRepo> = Vec::new();
    for node in it: nodes.into_iter()
        invariant
            it.seq() == all,
            repos@.len() == it.index(),
            forall|i: int| 0 <= i < repos@.len() ==> #[trigger] repos@[i] == repo_from_graphql(all[i]),
    {
        repos.push(GitHubRepo::from(node));
    }
    repos
}

/// The total of an optional repository connection, 0 when GitHub sent none.
pub open spec fn repo_total(c: Option<GitHubRepoCount>) -> u64 {
    match c {
        Some(r) => r.totalCount,
        None => 0,
    }
}

/// What a user's profile says, field by field: every text is the GraphQL
/// user's own field of the same meaning (login, id, avatar, page, name,
/// company, location, email, biography, creation and update times); the
/// public repository, follower and following counts are the totals of the
/// matching connections (0 when absent), each taken from its own connection;
/// the starred count and the three contribution totals are present exactly
/// when GitHub sent them; the private repository count is never reported.
pub proof fn user_profile_fields(u: GitHubUserGraphQL)
    ensures
        ({
            let p = user_from_graphql(u);
            &&& p.login == u.login
            &&& p.id == u.id
            &&& p.avatar_url == u.avatarUrl
            &&& p.html_url == u.url
            &&& p.name == u.name
            &&& p.company == u.company
            &&& p.location == u.location
            &&& p.email == u.email
            &&& p.bio == u.bio
            &&& p.public_repos == repo_total(u.repositories)
            &&& (u.followers matches Some(f) ==> p.followers == f.totalCount)
            &&& (u.followers is None ==> p.followers == 0)
            &&& (u.following matches Some(f) ==> p.following == f.totalCount)
            &&& (u.following is None ==> p.following == 0)
            &&& p.created_at == u.createdAt
            &&& p.updated_at == u.updatedAt
            &&& p.private_repos is None
            &&& (p.starred_repos is Some <==> u.starredRepositories is Some)
            &&& (u.starredRepositories matches Some(s) ==> p.starred_repos == Some(s.totalCount))
            &&& (p.total_commits is Some <==> u.contributionsCollection is Some)
            &&& (p.total_prs is Some <==> u.contributionsCollection is Some)
            &&& (p.total_issues is Some <==> u.contributionsCollection is Some)
            &&& (u.contributionsCollection matches Some(c) ==> {
                &&& p.total_commits == Some(c.totalCommitContributions)
                &&& p.total_prs == Some(c.totalPullRequestContributions)
                &&& p.total_issues == Some(c.totalIssueContributions)
            })
        }),
{
}

/// The counts of a profile depend only on their own connection: changing the
/// followers of a user changes neither the following count nor the public
/// repository count, and changing who they follow leaves the follower count.
pub proof fn user_counts_independent(u: GitHubUserGraphQL, v: GitHubUserGraphQL)
    ensures
        u.following == v.following ==> user_from_graphql(u).following == user_from_graphql(v).following,
        u.followers == v.followers ==> user_from_graphql(u).followers == user_from_graphql(v).followers,
        u.repositories == v.repositories ==> user_from_graphql(u).public_repos
            == user_from_graphql(v).public_repos,
        u.company == v.company ==> user_from_graphql(u).company == user_from_graphql(v).company,
        u.location == v.location ==> user_from_graphql(u).location == user_from_graphql(v).location,
{
}

/// What a listed repository says, field by field: name, description, page,
/// star and fork counts, the three times, the private/fork/archived flags,
/// disk usage and homepage are the node's own fields of the same meaning; the
/// language and its colour come from the primary language (absent without
/// one); watcher and open-issue counts are the totals of their connections
/// (0 when absent); the license is its name when there is one.
pub proof fn repo_record_fields(r: GitHubRepoGraphQL)
    ensures
        ({
            let g = repo_from_graphql(r);
            &&& g.name == r.name
            &&& g.description == r.description
            &&& g.html_url == r.url
            &&& (r.primaryLanguage matches Some(l) ==> g.language == Some(l.name) && g.language_color == l.color)
            &&& (r.primaryLanguage is None ==> g.language is None && g.language_color is None)
            &&& g.stargazers_count == r.stargazerCount
            &&& g.forks_count == r.forkCount
            &&& (r.watchers matches Some(w) ==> g.watchers_count == w.totalCount)
            &&& (r.watchers is None ==> g.watchers_count == 0)
            &&& (r.issues matches Some(i) ==> g.open_issues_count == i.totalCount)
            &&& (r.issues is None ==> g.open_issues_count == 0)
            &&& g.created_at == r.createdAt
            &&& g.updated_at == r.updatedAt
            &&& g.pushed_at == r.pushedAt
            &&& g.is_private == r.isPrivate
            &&& g.is_fork == r.isFork
            &&& g.is_archived == r.isArchived
            &&& g.disk_usage == r.diskUsage
            &&& g.homepage == r.homepageUrl
            &&& (r.licenseInfo matches Some(l) ==> g.license == Some(l.name))
            &&& (r.licenseInfo is None ==> g.license is None)
        }),
{
}

/// Every repository of a listing carries its own node's creation and update
/// times, in the listing's order.
pub proof fn listed_repos_keep_times(nodes: Seq<GitHubRepoGraphQL>, repos: Seq<GitHubRepo>)
    requires
        repos.len() == nodes.len(),
        forall|i: int| 0 <= i < nodes.len() ==> #[trigger] repos[i] == repo_from_graphql(nodes[i]),
    ensures
        forall|i: int|
            0 <= i < nodes.len() ==> #[trigger] repos[i].created_at == nodes[i].createdAt
                && repos[i].updated_at == nodes[i].updatedAt && repos[i].name == nodes[i].name,
{
    assert forall|i: int| 0 <= i < nodes.len() implies #[trigger] repos[i].created_at == nodes[i].createdAt
        && repos[i].updated_at == nodes[i].updatedAt && repos[i].name == nodes[i].name by {
        repo_record_fields(nodes[i]);
    }
}

} // verus!

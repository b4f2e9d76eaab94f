//! The GraphQL side of the service: which query is sent for what, and how a
//! reply from GitHub turns into data or into an error message.

use vstd::prelude::*;
use vstd::string::StringExecFns;
use crate::text::{decimal, push_decimal, three_digit_decimal};

verus! {

/// Basic user query, answered without a token (public information only).
pub const QUERY_USER_BASIC: &'static str = r#"
query($username: String!) {
    user(login: $username) {
        login
        id
        avatarUrl
        url
        name
        company
        location
        email
        bio
        repositories { totalCount }
        followers { totalCount }
        following { totalCount }
        createdAt
        updatedAt
    }
}
"#;

/// Extended user query, used when a token is configured.
pub const QUERY_USER_EXTENDED: &'static str = r#"
query($username: String!) {
    user(login: $username) {
        login
        id
        avatarUrl
        url
        name
        company
        location
        email
        bio
        repositories { totalCount }
        followers { totalCount }
        following { totalCount }
        starredRepositories { totalCount }
        createdAt
        updatedAt
        contributionsCollection {
            totalCommitContributions
            totalPullRequestContributions
            totalIssueContributions
            restrictedContributionsCount
        }
    }
}
"#;

/// Query for a user's repositories, most recently updated first.
pub const QUERY_USER_REPOS: &'static str = r#"
query($username: String!, $first: Int!) {
    user(login: $username) {
        repositories(first: $first, orderBy: {field: UPDATED_AT, direction: DESC}) {
            nodes {
                name
                description
                url
                primaryLanguage {
                    name
                    color
                }
                stargazerCount
                forkCount
                watchers { totalCount }
                issues { totalCount }
                createdAt
                updatedAt
                pushedAt
                isPrivate
                isFork
                isArchived
                diskUsage
                homepageUrl
                licenseInfo {
                    name
                    spdxId
                }
            }
        }
    }
}
"#;

/// How many repositories are asked for at once.
pub const REPOS_PAGE_SIZE: u32 = 100;

/// The variables of a query: the user's login and, for listings, how many
/// items to return.
pub struct QueryVariables {
    pub username: String,
    pub first: Option<u32>,
}

/// A GraphQL request as it is posted to GitHub.
pub struct GraphQLRequest {
    pub query: String,
    pub variables: Option<QueryVariables>,
}

/// One error that GitHub reports.
pub struct GraphQLError {
    pub message: String,
}

/// A decoded GraphQL reply.
pub struct GraphQLResponse<T> {
    pub data: Option<T>,
    pub errors: Option<Vec<GraphQLError>>,
}

/// What became of a request to GitHub.
pub enum GraphQLReply<T> {
    /// The request could not be sent; the text describes why.
    ConnectionFailed(String),
    /// GitHub answered with a status outside 200..=299 and this body.
    HttpFailed { status: u16, body: String },
    /// GitHub's answer was decoded.
    Decoded(GraphQLResponse<T>),
    /// GitHub's answer could not be decoded; the text describes why.
    DecodeFailed(String),
}

/// The query that asks for a user's profile: the extended one exactly when a
/// token is configured.
pub fn user_query(username: &String, token: &Option<String>) -> (req: GraphQLRequest)
    ensures
        req.query@ == (if token is Some { QUERY_USER_EXTENDED@ } else { QUERY_USER_BASIC@ }),
        req.variables matches Some(v) && v.username@ == username@ && v.first is None,
{
    let query = if token.is_some() {
        QUERY_USER_EXTENDED
    } else {
        QUERY_USER_BASIC
    };
    GraphQLRequest {
        query: query.to_owned(),
        variables: Some(QueryVariables { username: username.clone(), first: None }),
    }
}

/// The query that asks for a user's repositories, a page of 100 of them,
/// whatever the configured token.
pub fn repos_query(username: &String) -> (req: GraphQLRequest)
    ensures
        req.query@ == QUERY_USER_REPOS@,
        req.variables matches Some(v) && v.username@ == username@ && v.first == Some(100u32),
{
    GraphQLRequest {
        query: QUERY_USER_REPOS.to_owned(),
        variables: Some(QueryVariables { username: username.clone(), first: Some(REPOS_PAGE_SIZE) }),
    }
}

/// Whether an HTTP status code means success (200 to 299), as
/// `StatusCode::is_success` decides it.
pub fn is_success(status: u16) -> (ok: bool)
    ensures
        ok <==> 200 <= status && status < 300,
{
    200 <= status && status < 300
}

/// The reason phrase that the `http` crate's table gives a status code.
pub uninterp spec fn canonical_reason(code: u16) -> Option<Seq<char>>;

/// `StatusCode::canonical_reason` of the code (none for codes outside
/// 100..=999, which are no status codes).
#[verifier::external_body]
fn status_reason(code: u16) -> (r: Option<&'static str>)
    ensures
        r is Some <==> canonical_reason(code) is Some,
        r matches Some(s) ==> canonical_reason(code) == Some(s@),
{
    match reqwest::StatusCode::from_u16(code) {
        Ok(status) => status.canonical_reason(),
        Err(_) => None,
    }
}

/// A status code as it is displayed: its number, a space, and its reason
/// phrase or "<unknown status code>".
pub open spec fn status_text(code: u16) -> Seq<char> {
    decimal(code as nat) + " "@ + match canonical_reason(code) {
        Some(r) => r,
        None => "<unknown status code>"@,
    }
}

/// A real status code (100 to 999) is displayed as its three digits followed
/// by a space.
pub proof fn status_text_starts_with_code(code: u16)
    requires
        100 <= code <= 999,
    ensures
        status_text(code).subrange(0, 3) == decimal(code as nat),
        status_text(code)[3] == ' ',
{
    three_digit_decimal(code as nat);
    reveal_strlit(" ");
    assert(status_text(code).subrange(0, 3) =~= decimal(code as nat));
}

/// Renders a status code as `StatusCode`'s `Display` does.
pub fn display_status(code: u16) -> (s: String)
    ensures
        s@ == status_text(code),
{
    let mut s = String::new();
    push_decimal(&mut s, code);
    s.append(" ");
    match status_reason(code) {
        Some(reason) => s.append(reason),
        None => s.append("<unknown status code>"),
    }
    s
}

/// Parts joined with a separator between each two of them.
pub open spec fn join(parts: Seq<Seq<char>>, sep: Seq<char>) -> Seq<char>
    decreases parts.len(),
{
    if parts.len() == 0 {
        Seq::empty()
    } else if parts.len() == 1 {
        parts[0]
    } else {
        join(parts.drop_last(), sep) + sep + parts.last()
    }
}

/// The messages of a list of errors.
pub open spec fn messages(errors: Seq<GraphQLError>) -> Seq<Seq<char>> {
    Seq::new(errors.len(), |i: int| errors[i].message@)
}

/// All error messages, separated by ", ".
pub fn join_messages(errors: &Vec<GraphQLError>) -> (s: String)
    ensures
        s@ == join(messages(errors@), ", "@),
{
    let mut s = String::new();
    let mut i: usize = 0;
    while i < errors.len()
        invariant
            i <= errors@.len(),
            s@ == join(messages(errors@).take(i as int), ", "@),
        decreases errors@.len() - i,
    {
        let ghost before = messages(errors@).take(i as int);
        if i > 0 {
            s.append(", ");
        }
        s.append(errors[i].message.as_str());
        proof {
            let after = messages(errors@).take(i + 1);
            assert(after.drop_last() =~= before);
            if i == 0 {
                assert(before =~= Seq::<Seq<char>>::empty());
                assert(s@ =~= after[0]);
            }
        }
        i = i + 1;
    }
    assert(messages(errors@).take(errors@.len() as int) =~= messages(errors@));
    s
}

/// What a request to GitHub yields: its data, or the message that explains
/// why there is none. Errors that GitHub reports win over any data sent with
/// them.
pub open spec fn graphql_outcome<T>(reply: GraphQLReply<T>) -> Result<T, Seq<char>> {
    match reply {
        GraphQLReply::ConnectionFailed(e) => Err("Error de conexión: "@ + e@),
        GraphQLReply::HttpFailed { status, body } => Err(
            "Error HTTP "@ + status_text(status) + ": "@ + body@,
        ),
        GraphQLReply::DecodeFailed(e) => Err("Error parseando JSON: "@ + e@),
        GraphQLReply::Decoded(resp) => match resp.errors {
            Some(errors) => Err(join(messages(errors@), ", "@)),
            None => match resp.data {
                Some(d) => Ok(d),
                None => Err("No se recibieron datos"@),
            },
        },
    }
}

/// When GitHub reports errors, the request fails with their messages, whatever
/// data came with them.
pub proof fn reported_errors_win<T>(data: Option<T>, errors: Vec<GraphQLError>)
    ensures
        graphql_outcome(GraphQLReply::Decoded((GraphQLResponse { data, errors: Some(errors) })))
            == Err::<T, Seq<char>>(join(messages(errors@), ", "@)),
{
}

/// A result whose error text is seen as characters.
pub open spec fn result_text<T>(r: Result<T, String>) -> Result<T, Seq<char>> {
    match r {
        Ok(d) => Ok(d),
        Err(e) => Err(e@),
    }
}

/// Decides what a request to GitHub yields.
pub fn graphql_query_result<T>(reply: GraphQLReply<T>) -> (r: Result<T, String>)
    ensures
        result_text(r) == graphql_outcome(reply),
{
    match reply {
        GraphQLReply::ConnectionFailed(e) => {
            let mut msg = "Error de conexión: ".to_owned();
            msg.append(e.as_str());
            Err(msg)
        },
        GraphQLReply::HttpFailed { status, body } => {
            let mut msg = "Error HTTP ".to_owned();
            let shown = display_status(status);
            msg.append(shown.as_str());
            msg.append(": ");
            msg.append(body.as_str());
            Err(msg)
        },
        GraphQLReply::DecodeFailed(e) => {
            let mut msg = "Error parseando JSON: ".to_owned();
            msg.append(e.as_str());
            Err(msg)
        },
        GraphQLReply::Decoded(resp) => {
            let GraphQLResponse { data, errors } = resp;
            match errors {
                Some(errors) => Err(join_messages(&errors)),
                None => match data {
                    Some(d) => Ok(d),
                    None => Err("No se recibieron datos".to_owned()),
                },
            }
        },
    }
}

} // verus!

use reqwest::header::HeaderValue;
use rustapi_graphql::api::{
    build_error_response, build_response, get_github_repos, get_github_status, get_github_user,
    saludar, service_date, set_github_token, RepoNodes, Repositories, ReposData, TokenRequest, UserData,
};
use rustapi_graphql::github::{
    repos_from_graphql, ContributionsCollection, GitHubFollowerCount, GitHubFollowingCount,
    GitHubRepo, GitHubRepoCount, GitHubRepoGraphQL, GitHubUser, GitHubUserGraphQL, IssueCount,
    Language, LicenseInfo, WatcherCount,
};
use rustapi_graphql::graphql::{
    display_status, graphql_query_result, is_success, join_messages, repos_query, user_query,
    GraphQLError, GraphQLReply, GraphQLResponse, QUERY_USER_BASIC, QUERY_USER_EXTENDED,
    QUERY_USER_REPOS,
};
use rustapi_graphql::headers::{get_github_headers, get_user_agent, is_header_value_text};
use rustapi_graphql::text::push_decimal;

fn user(extended: bool) -> GitHubUserGraphQL {
    GitHubUserGraphQL {
        login: "octocat".to_string(),
        id: "MDQ6VXNlcjU4MzIzMQ==".to_string(),
        avatarUrl: "https://avatars.githubusercontent.com/u/583231".to_string(),
        url: "https://github.com/octocat".to_string(),
        name: Some("The Octocat".to_string()),
        company: Some("@github".to_string()),
        location: Some("San Francisco".to_string()),
        email: None,
        bio: None,
        repositories: Some(GitHubRepoCount { totalCount: 8 }),
        followers: Some(GitHubFollowerCount { totalCount: 1000 }),
        following: None,
        createdAt: "2011-01-25T18:44:36Z".to_string(),
        updatedAt: "2024-01-01T00:00:00Z".to_string(),
        starredRepositories: if extended { Some(GitHubRepoCount { totalCount: 3 }) } else { None },
        contributionsCollection: if extended {
            Some(ContributionsCollection {
                totalCommitContributions: 11,
                totalPullRequestContributions: 12,
                totalIssueContributions: 13,
                restrictedContributionsCount: 14,
            })
        } else {
            None
        },
    }
}

fn repo(name: &str, with_extras: bool) -> GitHubRepoGraphQL {
    GitHubRepoGraphQL {
        name: name.to_string(),
        description: Some("a repository".to_string()),
        url: format!("https://github.com/octocat/{}", name),
        primaryLanguage: if with_extras {
            Some(Language { name: "Rust".to_string(), color: Some("#dea584".to_string()) })
        } else {
            None
        },
        stargazerCount: 42,
        forkCount: 7,
        watchers: if with_extras { Some(WatcherCount { totalCount: 5 }) } else { None },
        issues: if with_extras { Some(IssueCount { totalCount: 2 }) } else { None },
        createdAt: "2020-01-01T00:00:00Z".to_string(),
        updatedAt: "2021-01-01T00:00:00Z".to_string(),
        pushedAt: None,
        isPrivate: false,
        isFork: true,
        isArchived: false,
        diskUsage: Some(123),
        homepageUrl: None,
        licenseInfo: if with_extras {
            Some(LicenseInfo { name: "MIT License".to_string(), spdxId: "MIT".to_string() })
        } else {
            None
        },
    }
}

#[test]
fn user_conversion_keeps_fields_and_defaults_counts() {
    let u = GitHubUser::from(user(false));
    assert_eq!(u.login, "octocat");
    assert_eq!(u.avatar_url, "https://avatars.githubusercontent.com/u/583231");
    assert_eq!(u.html_url, "https://github.com/octocat");
    assert_eq!(u.name.as_deref(), Some("The Octocat"));
    assert_eq!(u.email, None);
    assert_eq!(u.public_repos, 8);
    assert_eq!(u.followers, 1000);
    assert_eq!(u.following, 0);
    assert_eq!(u.created_at, "2011-01-25T18:44:36Z");
    assert_eq!(u.private_repos, None);
    assert_eq!(u.starred_repos, None);
    assert_eq!(u.total_commits, None);
    assert_eq!(u.total_prs, None);
    assert_eq!(u.total_issues, None);
}

#[test]
fn user_conversion_reports_extended_counts() {
    let u = GitHubUser::from(user(true));
    assert_eq!(u.starred_repos, Some(3));
    assert_eq!(u.total_commits, Some(11));
    assert_eq!(u.total_prs, Some(12));
    assert_eq!(u.total_issues, Some(13));
    assert_eq!(u.private_repos, None);
}

#[test]
fn repo_conversion_splits_language_and_license() {
    let r = GitHubRepo::from(repo("hello", true));
    assert_eq!(r.name, "hello");
    assert_eq!(r.html_url, "https://github.com/octocat/hello");
    assert_eq!(r.language.as_deref(), Some("Rust"));
    assert_eq!(r.language_color.as_deref(), Some("#dea584"));
    assert_eq!(r.stargazers_count, 42);
    assert_eq!(r.forks_count, 7);
    assert_eq!(r.watchers_count, 5);
    assert_eq!(r.open_issues_count, 2);
    assert_eq!(r.license.as_deref(), Some("MIT License"));
    assert!(r.is_fork);
    assert_eq!(r.disk_usage, Some(123));

    let bare = GitHubRepo::from(repo("bare", false));
    assert_eq!(bare.language, None);
    assert_eq!(bare.language_color, None);
    assert_eq!(bare.watchers_count, 0);
    assert_eq!(bare.open_issues_count, 0);
    assert_eq!(bare.license, None);
}

#[test]
fn repo_listing_keeps_order() {
    let repos = repos_from_graphql(vec![repo("a", true), repo("b", false), repo("c", true)]);
    let names: Vec<&str> = repos.iter().map(|r| r.name.as_str()).collect();
    assert_eq!(names, vec!["a", "b", "c"]);
    assert!(repos_from_graphql(Vec::new()).is_empty());
}

#[test]
fn user_agent_is_read_from_header() {
    let h = HeaderValue::from_static("curl/8.0.1");
    assert_eq!(get_user_agent(Some(&h)), "curl/8.0.1");
    let tab = HeaderValue::from_static("a\tb");
    assert_eq!(get_user_agent(Some(&tab)), "a\tb");
}

#[test]
fn user_agent_falls_back_when_absent_or_unreadable() {
    assert_eq!(get_user_agent(None), "Desconocido");
    let opaque = HeaderValue::from_bytes("navegador-ñ".as_bytes()).unwrap();
    assert_eq!(get_user_agent(Some(&opaque)), "Desconocido");
}

#[test]
fn github_headers_without_token() {
    let headers = get_github_headers(&None);
    assert_eq!(headers.len(), 2);
    assert_eq!(headers.get("user-agent").unwrap(), "RustAPI-GraphQL/1.0");
    assert_eq!(headers.get("content-type").unwrap(), "application/json");
    assert!(headers.get("authorization").is_none());
}

#[test]
fn github_headers_with_token() {
    let headers = get_github_headers(&Some("ghp_abc123".to_string()));
    assert_eq!(headers.len(), 3);
    assert_eq!(headers.get("Authorization").unwrap(), "Bearer ghp_abc123");
    assert_eq!(headers.get("User-Agent").unwrap(), "RustAPI-GraphQL/1.0");
}

#[test]
fn success_codes() {
    assert!(!is_success(199));
    assert!(is_success(200));
    assert!(is_success(299));
    assert!(!is_success(300));
    assert!(!is_success(404));
}

#[test]
fn decimal_rendering() {
    let mut s = String::from("n=");
    push_decimal(&mut s, 0);
    assert_eq!(s, "n=0");
    let mut s = String::new();
    push_decimal(&mut s, 65535);
    assert_eq!(s, "65535");
    let mut s = String::new();
    push_decimal(&mut s, 1070);
    assert_eq!(s, "1070");
}

#[test]
fn status_display_matches_http() {
    assert_eq!(display_status(404), "404 Not Found");
    assert_eq!(display_status(502), "502 Bad Gateway");
    assert_eq!(display_status(299), "299 <unknown status code>");
    assert_eq!(display_status(404), reqwest::StatusCode::NOT_FOUND.to_string());
}

#[test]
fn error_messages_are_joined() {
    assert_eq!(join_messages(&Vec::new()), "");
    let one = vec![GraphQLError { message: "bad".to_string() }];
    assert_eq!(join_messages(&one), "bad");
    let three = vec![
        GraphQLError { message: "a".to_string() },
        GraphQLError { message: "b".to_string() },
        GraphQLError { message: "c".to_string() },
    ];
    assert_eq!(join_messages(&three), "a, b, c");
}

#[test]
fn graphql_result_of_each_reply() {
    let r: Result<u32, String> = graphql_query_result(GraphQLReply::ConnectionFailed("dns".to_string()));
    assert_eq!(r.unwrap_err(), "Error de conexión: dns");
    let r: Result<u32, String> =
        graphql_query_result(GraphQLReply::HttpFailed { status: 401, body: "{\"message\":\"Bad credentials\"}".to_string() });
    assert_eq!(r.unwrap_err(), "Error HTTP 401 Unauthorized: {\"message\":\"Bad credentials\"}");
    let r: Result<u32, String> = graphql_query_result(GraphQLReply::DecodeFailed("eof".to_string()));
    assert_eq!(r.unwrap_err(), "Error parseando JSON: eof");
    let r = graphql_query_result(GraphQLReply::Decoded(GraphQLResponse { data: Some(7u32), errors: None }));
    assert_eq!(r, Ok(7));
    let r: Result<u32, String> =
        graphql_query_result(GraphQLReply::Decoded(GraphQLResponse { data: None, errors: None }));
    assert_eq!(r.unwrap_err(), "No se recibieron datos");
}

#[test]
fn graphql_errors_win_over_data() {
    let r = graphql_query_result(GraphQLReply::Decoded(GraphQLResponse {
        data: Some(7u32),
        errors: Some(vec![
            GraphQLError { message: "Could not resolve to a User".to_string() },
            GraphQLError { message: "rate limited".to_string() },
        ]),
    }));
    assert_eq!(r.unwrap_err(), "Could not resolve to a User, rate limited");
    let r = graphql_query_result(GraphQLReply::Decoded(GraphQLResponse { data: Some(7u32), errors: Some(Vec::new()) }));
    assert_eq!(r.unwrap_err(), "");
}

#[test]
fn queries_chosen_by_token() {
    let name = "octocat".to_string();
    let q = user_query(&name, &Some("tok".to_string()));
    assert_eq!(q.query, QUERY_USER_EXTENDED);
    let v = q.variables.unwrap();
    assert_eq!(v.username, "octocat");
    assert_eq!(v.first, None);
    assert_eq!(user_query(&name, &None).query, QUERY_USER_BASIC);
    let r = repos_query(&name);
    assert_eq!(r.query, QUERY_USER_REPOS);
    assert_eq!(r.variables.unwrap().first, Some(100));
}

#[test]
fn envelope_of_answers() {
    let ua = HeaderValue::from_static("tester/1");
    let fecha = "2024-05-06T07:08:09.123+00:00".to_string();
    let ok = build_response(Some(&ua), &Some("t".to_string()), fecha.clone(), 5u8);
    assert_eq!(ok.status_code, 200);
    assert_eq!(ok.body.status, "success");
    assert_eq!(ok.body.data, 5);
    assert_eq!(ok.body.user_agent, "tester/1");
    assert_eq!(ok.body.token_configurado, Some(true));
    assert_eq!(ok.body.fecha_servicio, fecha);

    let err = build_error_response(None, &None, fecha.clone(), 404, "x");
    assert_eq!(err.status_code, 404);
    assert_eq!(err.body.status, "error");
    assert_eq!(err.body.user_agent, "Desconocido");
    assert_eq!(err.body.token_configurado, Some(false));
    assert_eq!(err.body.fecha_servicio, fecha);
}

#[test]
fn answers_do_not_reveal_the_token() {
    let a = build_response(None, &Some("secreto-1".to_string()), "f".to_string(), 1u8);
    let b = build_response(None, &Some("secreto-2".to_string()), "f".to_string(), 1u8);
    assert_eq!(a.body.token_configurado, b.body.token_configurado);
    assert_eq!(a.body.fecha_servicio, b.body.fecha_servicio);
    assert_eq!(a.body.user_agent, b.body.user_agent);
    assert_eq!(a.body.status, b.body.status);
}

#[test]
fn service_date_is_utc_rfc3339() {
    let d = service_date();
    assert!(d.len() >= 25);
    assert!(d.ends_with("+00:00"));
    assert_eq!(&d[4..5], "-");
    assert_eq!(&d[10..11], "T");
    assert!(chrono::DateTime::parse_from_rfc3339(&d).is_ok());
}

#[test]
fn greeting() {
    let r = saludar(None, &None, "f".to_string(), "Ana".to_string());
    assert_eq!(r.status_code, 200);
    assert_eq!(r.body.data.nombre, "Ana");
    assert_eq!(r.body.data.mensaje, "¡Hola, Ana!");
}

#[test]
fn user_answer_on_success() {
    let reply = GraphQLReply::Decoded(GraphQLResponse { data: Some(UserData { user: user(true) }), errors: None });
    let r = get_github_user(None, &Some("tok".to_string()), "f".to_string(), "octocat".to_string(), reply);
    assert_eq!(r.status_code, 200);
    assert_eq!(r.body.status, "success");
    assert_eq!(r.body.data.username, "octocat");
    assert_eq!(r.body.data.mensaje, "Usuario octocat encontrado");
    assert_eq!(r.body.data.info_extendida, Some(true));
    let perfil = r.body.data.perfil.unwrap();
    assert_eq!(perfil.login, "octocat");
    assert_eq!(perfil.total_commits, Some(11));
}

#[test]
fn user_answer_on_failure() {
    let reply: GraphQLReply<UserData> = GraphQLReply::Decoded(GraphQLResponse {
        data: None,
        errors: Some(vec![GraphQLError { message: "Could not resolve to a User with the login of 'nadie'.".to_string() }]),
    });
    let r = get_github_user(None, &None, "f".to_string(), "nadie".to_string(), reply);
    assert_eq!(r.status_code, 404);
    assert_eq!(r.body.status, "error");
    assert!(r.body.data.perfil.is_none());
    assert_eq!(r.body.data.mensaje, "Error: Could not resolve to a User with the login of 'nadie'.");
    assert_eq!(r.body.data.info_extendida, None);
    assert_eq!(r.body.token_configurado, Some(false));
}

#[test]
fn repos_answer_on_success() {
    let data = ReposData {
        user: Repositories { repositories: RepoNodes { nodes: vec![repo("uno", true), repo("dos", false)] } },
    };
    let reply = GraphQLReply::Decoded(GraphQLResponse { data: Some(data), errors: None });
    let r = get_github_repos(None, &None, "f".to_string(), "octocat".to_string(), reply);
    assert_eq!(r.status_code, 200);
    assert_eq!(r.body.data.total, 2);
    assert_eq!(r.body.data.repositorios.len(), 2);
    assert_eq!(r.body.data.repositorios[0].name, "uno");
    assert_eq!(r.body.data.repositorios[1].name, "dos");
}

#[test]
fn repos_answer_on_failure() {
    let reply: GraphQLReply<ReposData> = GraphQLReply::HttpFailed { status: 502, body: String::new() };
    let r = get_github_repos(None, &None, "f".to_string(), "octocat".to_string(), reply);
    assert_eq!(r.status_code, 404);
    assert_eq!(r.body.status, "error");
    assert_eq!(r.body.data.total, 0);
    assert!(r.body.data.repositorios.is_empty());
    assert_eq!(r.body.data.username, "octocat");
}

#[test]
fn status_answer() {
    let with = get_github_status(None, &Some("t".to_string()), "f".to_string());
    assert_eq!(with.body.data.api, "GitHub GraphQL API");
    assert!(with.body.data.graphql_disponible);
    assert!(with.body.data.token_configurado);
    assert_eq!(with.body.data.mensaje, "Token configurado - Información extendida disponible");
    let without = get_github_status(None, &None, "f".to_string());
    assert!(!without.body.data.token_configurado);
    assert_eq!(without.body.data.mensaje, "Sin token - Solo información pública disponible");
    assert_eq!(without.body.token_configurado, Some(false));
}

#[test]
fn token_answer() {
    let mut token = None;
    let r = set_github_token(None, &mut token, "f".to_string(), TokenRequest { token: "abc".to_string() });
    assert_eq!(r.status_code, 200);
    assert_eq!(
        r.body.data.mensaje,
        "Para configurar el token de forma persistente, use la variable de entorno GITHUB_TOKEN"
    );
    assert_eq!(r.body.data.validado, Some(true));
    assert_eq!(r.body.token_configurado, Some(true));
    assert_eq!(token.as_deref(), Some("abc"));
}

#[test]
fn token_update_reaches_github() {
    let mut token = Some("viejo".to_string());
    set_github_token(None, &mut token, "f".to_string(), TokenRequest { token: "nuevo".to_string() });
    let headers = get_github_headers(&token);
    assert_eq!(headers.get("authorization").unwrap(), "Bearer nuevo");
}

#[test]
fn refused_tokens_leave_configuration() {
    let mut token = Some("viejo".to_string());
    let empty = set_github_token(None, &mut token, "f".to_string(), TokenRequest { token: String::new() });
    assert_eq!(empty.body.data.validado, Some(false));
    assert_eq!(token.as_deref(), Some("viejo"));
    let bad = set_github_token(None, &mut token, "f".to_string(), TokenRequest { token: "a\nb".to_string() });
    assert_eq!(bad.body.data.validado, Some(true));
    assert_eq!(token.as_deref(), Some("viejo"));
    let mut none = None;
    let r = set_github_token(None, &mut none, "f".to_string(), TokenRequest { token: String::new() });
    assert_eq!(r.body.token_configurado, Some(false));
    assert!(none.is_none());
}

#[test]
fn header_value_text_check() {
    assert!(is_header_value_text("Bearer ghp_x"));
    assert!(is_header_value_text("con\ttab y ñ"));
    assert!(!is_header_value_text("a\nb"));
    assert!(!is_header_value_text("del\u{7f}"));
    assert!(is_header_value_text(""));
}

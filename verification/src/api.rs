//! The service's answers: the common envelope and what each endpoint puts
//! in it.

use vstd::prelude::*;
use vstd::string::StringExecFns;
use reqwest::header::HeaderValue;
use crate::github::{GitHubUser, GitHubUserGraphQL, GitHubRepo, GitHubRepoGraphQL, user_from_graphql, repo_from_graphql, repos_from_graphql};
use crate::graphql::{GraphQLReply, graphql_outcome, graphql_query_result};
use crate::headers::{
    authorization_only_with_token, get_user_agent, github_header_entries, header_bytes, header_value_text,
    is_header_value_text, token_text, user_agent_text,
};
use vstd::utf8::encode_utf8;

verus! {

/// The envelope of every answer.
pub struct ApiResponse<T> {
    /// "success" or "error".
    pub status: String,
    pub data: T,
    /// The caller's `User-Agent`.
    pub user_agent: String,
    /// When the answer was made, in RFC 3339.
    pub fecha_servicio: String,
    /// Whether a GitHub token is configured.
    pub token_configurado: Option<bool>,
}

/// An answer together with its HTTP status code.
pub struct HttpReply<T> {
    pub status_code: u16,
    pub body: ApiResponse<T>,
}

/// The status code of a successful answer.
pub const HTTP_OK: u16 = 200;

/// The status code of an answer about something that could not be found.
pub const HTTP_NOT_FOUND: u16 = 404;

/// Every character is a decimal digit.
pub open spec fn all_digits(s: Seq<char>) -> bool {
    forall|i: int| 0 <= i < s.len() ==> '0' <= #[trigger] s[i] <= '9'
}

/// Two decimal digits at position `i`.
pub open spec fn two_digits_at(s: Seq<char>, i: int) -> bool {
    all_digits(s.subrange(i, i + 2))
}

/// A year as RFC 3339 writes it: four digits, or, outside 0 to 9999, a sign
/// and at least four digits.
pub open spec fn rfc3339_year(y: Seq<char>) -> bool {
    ||| y.len() == 4 && all_digits(y)
    ||| y.len() >= 5 && (y[0] == '+' || y[0] == '-') && all_digits(y.drop_first())
}

/// A fraction of a second: none, or a dot and 3, 6 or 9 digits.
pub open spec fn rfc3339_fraction(f: Seq<char>) -> bool {
    ||| f.len() == 0
    ||| (f.len() == 4 || f.len() == 7 || f.len() == 10) && f[0] == '.' && all_digits(f.drop_first())
}

/// A UTC time in RFC 3339, `YYYY-MM-DDTHH:MM:SS[.fraction]+00:00`, where the
/// year takes `year_len` characters and the fraction `frac_len`.
pub open spec fn utc_rfc3339_parts(d: Seq<char>, year_len: int, frac_len: int) -> bool {
    let t = year_len;
    &&& year_len >= 4
    &&& frac_len >= 0
    &&& d.len() == year_len + 15 + frac_len + 6
    &&& rfc3339_year(d.subrange(0, t))
    &&& d[t] == '-'
    &&& two_digits_at(d, t + 1)
    &&& d[t + 3] == '-'
    &&& two_digits_at(d, t + 4)
    &&& d[t + 6] == 'T'
    &&& two_digits_at(d, t + 7)
    &&& d[t + 9] == ':'
    &&& two_digits_at(d, t + 10)
    &&& d[t + 12] == ':'
    &&& two_digits_at(d, t + 13)
    &&& rfc3339_fraction(d.subrange(t + 15, t + 15 + frac_len))
    &&& d.subrange(d.len() - 6, d.len() as int) == "+00:00"@
}

/// A UTC time in RFC 3339 with the offset written "+00:00".
pub open spec fn utc_rfc3339(d: Seq<char>) -> bool {
    exists|year_len: int, frac_len: int| utc_rfc3339_parts(d, year_len, frac_len)
}

/// The current time rendered in RFC 3339: chrono's `Utc::now()` followed by
/// `DateTime::to_rfc3339`. (chrono's `DateTime` is generic over chrono's
/// `TimeZone` trait, which verified code cannot name, so the time value
/// itself is never handed out; its rendering is.) Which date and time it is
/// is left unsaid; every rendering has the RFC 3339 form with the UTC offset
/// "+00:00" and a fraction of a second of 0, 3, 6 or 9 digits.
#[verifier::external_body]
fn utc_now_rfc3339() -> (d: String)
    ensures
        utc_rfc3339(d@),
{
    chrono::Utc::now().to_rfc3339()
}

/// When an answer is made: the current UTC time in RFC 3339.
pub fn service_date() -> (d: String)
    ensures
        utc_rfc3339(d@),
{
    utc_now_rfc3339()
}

/// What every answer states besides its data: the status code and word, the
/// caller's `User-Agent`, the time it was made, and whether a token is
/// configured (never the token itself).
pub open spec fn reply_envelope<T>(
    r: HttpReply<T>,
    code: u16,
    word: Seq<char>,
    user_agent: Option<&HeaderValue>,
    token: &Option<String>,
    fecha_servicio: String,
) -> bool {
    &&& r.status_code == code
    &&& r.body.status@ == word
    &&& r.body.user_agent@ == user_agent_text(header_bytes(user_agent))
    &&& r.body.fecha_servicio == fecha_servicio
    &&& r.body.token_configurado == Some(token is Some)
}

/// The envelope of a successful answer.
pub open spec fn success_reply<T>(
    r: HttpReply<T>,
    user_agent: Option<&HeaderValue>,
    token: &Option<String>,
    fecha_servicio: String,
) -> bool {
    reply_envelope(r, 200, "success"@, user_agent, token, fecha_servicio)
}

/// The envelope of a failed answer with the given status code.
pub open spec fn error_reply<T>(
    r: HttpReply<T>,
    code: u16,
    user_agent: Option<&HeaderValue>,
    token: &Option<String>,
    fecha_servicio: String,
) -> bool {
    reply_envelope(r, code, "error"@, user_agent, token, fecha_servicio)
}

/// Wraps data in a successful answer.
pub fn build_response<T>(
    user_agent: Option<&HeaderValue>,
    token: &Option<String>,
    fecha_servicio: String,
    data: T,
) -> (r: HttpReply<T>)
    ensures
        success_reply(r, user_agent, token, fecha_servicio),
        r.body.data == data,
{
    let body = ApiResponse {
        status: "success".to_owned(),
        data,
        user_agent: get_user_agent(user_agent),
        fecha_servicio,
        token_configurado: Some(token.is_some()),
    };
    HttpReply { status_code: HTTP_OK, body }
}

/// Wraps data in a failed answer with the given status code.
pub fn build_error_response<T>(
    user_agent: Option<&HeaderValue>,
    token: &Option<String>,
    fecha_servicio: String,
    status: u16,
    data: T,
) -> (r: HttpReply<T>)
    ensures
        error_reply(r, status, user_agent, token, fecha_servicio),
        r.body.data == data,
{
    let body = ApiResponse {
        status: "error".to_owned(),
        data,
        user_agent: get_user_agent(user_agent),
        fecha_servicio,
        token_configurado: Some(token.is_some()),
    };
    HttpReply { status_code: status, body }
}

/// The data of a greeting.
pub struct SaludoData {
    pub nombre: String,
    pub mensaje: String,
}

/// GET /api/v1/saludar?nombre=..: greets the caller by name.
pub fn saludar(
    user_agent: Option<&HeaderValue>,
    token: &Option<String>,
    fecha_servicio: String,
    nombre: String,
) -> (r: HttpReply<SaludoData>)
    ensures
        success_reply(r, user_agent, token, fecha_servicio),
        r.body.data.nombre@ == nombre@,
        r.body.data.mensaje@ == "¡Hola, "@ + nombre@ + "!"@,
{
    let mut mensaje = "¡Hola, ".to_owned();
    mensaje.append(nombre.as_str());
    mensaje.append("!");
    build_response(user_agent, token, fecha_servicio, SaludoData { nombre, mensaje })
}

/// The data that the user query returns.
pub struct UserData {
    pub user: GitHubUserGraphQL,
}

/// The data of an answer about a user.
pub struct UserResponse {
    pub username: String,
    pub perfil: Option<GitHubUser>,
    pub mensaje: String,
    pub info_extendida: Option<bool>,
}

/// GET /api/v1/github/users/{username}: the user's profile when GitHub
/// returned it, and a 404 answer that explains what went wrong otherwise.
pub fn get_github_user(
    user_agent: Option<&HeaderValue>,
    token: &Option<String>,
    fecha_servicio: String,
    username: String,
    reply: GraphQLReply<UserData>,
) -> (r: HttpReply<UserResponse>)
    ensures
        r.body.data.username@ == username@,
        graphql_outcome(reply) matches Ok(d) ==> {
            &&& success_reply(r, user_agent, token, fecha_servicio)
            &&& r.body.data.perfil == Some(user_from_graphql(d.user))
            &&& r.body.data.mensaje@ == "Usuario "@ + username@ + " encontrado"@
            &&& r.body.data.info_extendida == Some(token is Some)
        },
        graphql_outcome(reply) matches Err(e) ==> {
            &&& error_reply(r, 404, user_agent, token, fecha_servicio)
            &&& r.body.data.perfil is None
            &&& r.body.data.mensaje@ == "Error: "@ + e
            &&& r.body.data.info_extendida is None
        },
{
    match graphql_query_result(reply) {
        Ok(data) => {
            let user = GitHubUser::from(data.user);
            let mut mensaje = "Usuario ".to_owned();
            mensaje.append(username.as_str());
            mensaje.append(" encontrado");
            build_response(
                user_agent,
                token,
                fecha_servicio,
                UserResponse {
                    username,
                    perfil: Some(user),
                    mensaje,
                    info_extendida: Some(token.is_some()),
                },
            )
        },
        Err(e) => {
            let mut mensaje = "Error: ".to_owned();
            mensaje.append(e.as_str());
            build_error_response(
                user_agent,
                token,
                fecha_servicio,
                HTTP_NOT_FOUND,
                UserResponse { username, perfil: None, mensaje, info_extendida: None },
            )
        },
    }
}

/// The repositories that the listing query returns.
pub struct RepoNodes {
    pub nodes: Vec<GitHubRepoGraphQL>,
}

/// A user's repository connection.
pub struct Repositories {
    pub repositories: RepoNodes,
}

/// The data that the listing query returns.
pub struct ReposData {
    pub user: Repositories,
}

/// The data of an answer about a user's repositories.
pub struct ReposResponse {
    pub username: String,
    pub total: usize,
    pub repositorios: Vec<GitHubRepo>,
}

/// GET /api/v1/github/users/{username}/repos: the user's repositories, in the
/// order GitHub listed them, and their number; a 404 answer with none when
/// the query failed.
pub fn get_github_repos(
    user_agent: Option<&HeaderValue>,
    token: &Option<String>,
    fecha_servicio: String,
    username: String,
    reply: GraphQLReply<ReposData>,
) -> (r: HttpReply<ReposResponse>)
    ensures
        r.body.data.username@ == username@,
        r.body.data.total == r.body.data.repositorios@.len(),
        graphql_outcome(reply) matches Ok(d) ==> {
            &&& success_reply(r, user_agent, token, fecha_servicio)
            &&& r.body.data.repositorios@.len() == d.user.repositories.nodes@.len()
            &&& forall|i: int|
                0 <= i < d.user.repositories.nodes@.len() ==> #[trigger] r.body.data.repositorios@[i]
                    == repo_from_graphql(d.user.repositories.nodes@[i])
        },
        graphql_outcome(reply) is Err ==> {
            &&& error_reply(r, 404, user_agent, token, fecha_servicio)
            &&& r.body.data.repositorios@.len() == 0
        },
{
    match graphql_query_result(reply) {
        Ok(data) => {
            let repos = repos_from_graphql(data.user.repositories.nodes);
            let total = repos.len();
            build_response(user_agent, token, fecha_servicio, ReposResponse { username, total, repositorios: repos })
        },
        Err(_) => {
            build_error_response(
                user_agent,
                token,
                fecha_servicio,
                HTTP_NOT_FOUND,
                ReposResponse { username, total: 0, repositorios: Vec::new() },
            )
        },
    }
}

/// The data of an answer about the service's link to GitHub.
pub struct StatusResponse {
    pub api: String,
    pub graphql_disponible: bool,
    pub token_configurado: bool,
    pub mensaje: String,
}

/// GET /api/v1/github/status: says which API is used and whether a token is
/// configured.
pub fn get_github_status(
    user_agent: Option<&HeaderValue>,
    token: &Option<String>,
    fecha_servicio: String,
) -> (r: HttpReply<StatusResponse>)
    ensures
        success_reply(r, user_agent, token, fecha_servicio),
        r.body.data.api@ == "GitHub GraphQL API"@,
        r.body.data.graphql_disponible,
        r.body.data.token_configurado == token is Some,
        r.body.data.mensaje@ == (if token is Some {
            "Token configurado - Información extendida disponible"@
        } else {
            "Sin token - Solo información pública disponible"@
        }),
{
    let mensaje = if token.is_some() {
        "Token configurado - Información extendida disponible".to_owned()
    } else {
        "Sin token - Solo información pública disponible".to_owned()
    };
    build_response(
        user_agent,
        token,
        fecha_servicio,
        StatusResponse {
            api: "GitHub GraphQL API".to_owned(),
            graphql_disponible: true,
            token_configurado: token.is_some(),
            mensaje,
        },
    )
}

/// The body of a token submission.
pub struct TokenRequest {
    pub token: String,
}

/// The data of an answer to a token submission.
pub struct TokenResponse {
    pub mensaje: String,
    pub validado: Option<bool>,
}

/// Whether a submitted token is accepted: it is not empty and can be sent
/// to GitHub as a header value.
pub open spec fn token_accepted(submitted: Seq<char>) -> bool {
    submitted.len() > 0 && header_value_text(submitted)
}

/// The configured token after a submission: the submitted token when it is
/// accepted, the previous one otherwise.
pub open spec fn token_after_update(before: Option<String>, submitted: String) -> Option<String> {
    if token_accepted(submitted@) {
        Some(submitted)
    } else {
        before
    }
}

/// POST /api/v1/github/token: checks the submitted token and, when it is not
/// empty and can be sent as a header value, makes it the configured token
/// until the server restarts (nothing is written to disk: the answer points
/// to the environment variable for that). The answer says whether the token
/// is non-empty and reports the configuration after the update.
pub fn set_github_token(
    user_agent: Option<&HeaderValue>,
    token: &mut Option<String>,
    fecha_servicio: String,
    body: TokenRequest,
) -> (r: HttpReply<TokenResponse>)
    ensures
        *final(token) == token_after_update(*old(token), body.token),
        success_reply(r, user_agent, &*final(token), fecha_servicio),
        r.body.data.mensaje@
            == "Para configurar el token de forma persistente, use la variable de entorno GITHUB_TOKEN"@,
        r.body.data.validado == Some(body.token@.len() > 0),
{
    let TokenRequest { token: submitted } = body;
    let validado = !submitted.as_str().is_empty();
    if validado && is_header_value_text(submitted.as_str()) {
        *token = Some(submitted);
    }
    build_response(
        user_agent,
        &*token,
        fecha_servicio,
        TokenResponse {
            mensaje: "Para configurar el token de forma persistente, use la variable de entorno GITHUB_TOKEN".to_owned(),
            validado: Some(validado),
        },
    )
}

/// A token accepted by the token endpoint is the credential that the next
/// requests to GitHub carry; a refused one leaves those requests as they were.
pub proof fn accepted_token_reaches_github(before: Option<String>, submitted: String)
    ensures
        token_accepted(submitted@) ==> github_header_entries(token_text(&token_after_update(before, submitted)))["authorization"@]
            == seq![encode_utf8("Bearer "@ + submitted@)],
        !token_accepted(submitted@) ==> github_header_entries(token_text(&token_after_update(before, submitted)))
            == github_header_entries(token_text(&before)),
{
    if token_accepted(submitted@) {
        authorization_only_with_token(Some(submitted@));
    }
}

/// An answer reveals whether a token is configured, never which: two answers
/// made from the same data, caller and time under two configured tokens agree
/// on every field.
pub proof fn answers_reveal_only_token_presence<T>(
    a: HttpReply<T>,
    b: HttpReply<T>,
    code: u16,
    word: Seq<char>,
    user_agent: Option<&HeaderValue>,
    token_a: &Option<String>,
    token_b: &Option<String>,
    fecha_servicio: String,
)
    requires
        reply_envelope(a, code, word, user_agent, token_a, fecha_servicio),
        reply_envelope(b, code, word, user_agent, token_b, fecha_servicio),
        a.body.data == b.body.data,
        token_a is Some == token_b is Some,
    ensures
        a.status_code == b.status_code,
        a.body.status@ == b.body.status@,
        a.body.data == b.body.data,
        a.body.user_agent@ == b.body.user_agent@,
        a.body.fecha_servicio == b.body.fecha_servicio,
        a.body.token_configurado == b.body.token_configurado,
{
}

/// A failed answer and a successful one made from the same data, caller,
/// configuration and time differ only in their status code and word.
pub proof fn error_and_success_share_envelope<T>(
    ok: HttpReply<T>,
    err: HttpReply<T>,
    code: u16,
    user_agent: Option<&HeaderValue>,
    token: &Option<String>,
    fecha_servicio: String,
)
    requires
        success_reply(ok, user_agent, token, fecha_servicio),
        error_reply(err, code, user_agent, token, fecha_servicio),
        ok.body.data == err.body.data,
    ensures
        ok.status_code == 200,
        err.status_code == code,
        ok.body.status@ == "success"@,
        err.body.status@ == "error"@,
        ok.body.data == err.body.data,
        ok.body.user_agent@ == err.body.user_agent@,
        ok.body.fecha_servicio == err.body.fecha_servicio,
        ok.body.token_configurado == err.body.token_configurado,
{
}

} // verus!

//! Verified core of a small HTTP service that greets callers and answers
//! questions about GitHub users through GitHub's GraphQL API.

pub mod text;
pub mod github;
pub mod headers;
pub mod graphql;
pub mod api;

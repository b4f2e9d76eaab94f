# rustapi_graphql

A small HTTP service that greets callers and answers questions about GitHub
users through GitHub's GraphQL API, built around a library verified with Verus.

- `src/` is the verified library: the GitHub data model and its conversions
  (`github`), the headers read from callers and sent to GitHub (`headers`),
  the choice of GraphQL query and the reading of GitHub's reply (`graphql`),
  the answer of every endpoint (`api`), and text helpers (`text`).
- `app/` is the server: configuration from the environment, routing with
  actix-web, JSON encoding and decoding with serde, and the HTTP requests to
  GitHub with reqwest. It hands the library plain values and the replies it
  got, and encodes what the library answers.
- `tests/` runs the library on concrete values.

# mas_graphql

The deciding parts of the GraphQL endpoint of an authentication service, written in Rust and
verified with Verus.

- `src/user_agent.rs` reads `User-Agent` headers. `src/custom.rs` knows the agents that
  applications build for themselves, `src/electron.rs` those of Electron applications, and
  `src/detection.rs` corrects what the `woothee` detector finds in all others.
  `src/agent_laws.rs` states what holds of every agent.
- `src/get_requester.rs` finds out who makes a request, as a chain of tasks whose outcomes
  are handed in one by one. `src/identity.rs` and `src/requester.rs` say who that can be and
  what they can access; `src/requester_laws.rs` states what the tasks come to.
- `src/route_error.rs` says how failures are answered, and `src/endpoint.rs` what is read
  from a request and what goes into its response.
- `src/text.rs` searches, cuts and trims strings.

`app/` is the HTTP side: extractors, storage and cookies, and the schema.

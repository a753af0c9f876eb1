# taskrunner

The HTTP service of the task runner: GraphQL over HTTP and over WebSockets.

`src/` is the library, verified with Verus. It decides what is done with a
request and what is answered; it opens no socket and waits for nothing.

- `service`: routes, and the fixed answers
- `juniper_hyper`: GraphQL requests over HTTP, refusals, executed results, pages
- `params`: a GraphQL request in the parameters of a query string
- `request`: GraphQL requests, and why one cannot be read
- `serve`: the upgrade to a WebSocket, and the relay on it
- `schema`: the types behind the schema
- `http`, `headers`, `json`, `text`: what the others are built from
- `laws`: what holds of the service as a whole

`app/` is the server around it: hyper and tokio, the schema with juniper's
derives, and the loops that carry out what the library decides.

The crate `juniper_graphql_ws` is used in `app/` alone: it speaks the graphql-ws
protocol with juniper on a socket that has been opened. The library only decides
which texts pass between the two.

# web_client

The bookkeeping behind a terminal's web server: which clients are connected, over which channels
they are reached, which session each of them is attached to, and which of them decides the size of
that session. The library is written and proved in Verus; `app/` puts sockets, locks and
serialisation around it.

- `string_map`: a map keyed by strings.
- `channel`: the tokio and axum types that lead to a client, and what is taken for granted of them.
- `connection_table`: the table of clients.
- `connection_bus`: sending to one client.
- `control_socket`, `terminal_socket`: what is done with the messages that clients send.
- `web_server`: finding, querying and stopping web servers over their local sockets.
- `laws`: what holds of all of it together.

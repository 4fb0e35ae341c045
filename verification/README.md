# ripewire

A PipeWire client library whose logic is verified with Verus: the SPA pod
format, the messages of the native protocol, the receive buffer, and the
decisions of a client session.

- `src/pod_v2`: reading and writing pods, with laws that a written pod is read
  back unchanged; typed views of the SPA parameter objects.
- `src/pod_simple`: a smaller pod reader and writer, and a line-by-line dump.
- `src/pod`: pods as value trees, and builders of parameter objects.
- `src/protocol`: the requests and events of each interface, as fields with a
  byte-exact encoding; a request written is read back as the same fields, and
  a client node's updates, whose infos nest in them, are read back too.
- `src/connection`, `src/context`, `src/proxy`: message headers, the receive
  buffer, the queue of outgoing requests and the proxies that fill it.
- `src/state`: the client session: which objects to bind, which requests to
  send, in answer to each event.
- `src/getter_plan`: which getters the object code generator writes for an
  object description, and under which names and keys.
- `app/main.rs`: the socket work around the session.

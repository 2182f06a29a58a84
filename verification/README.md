# constellation_client

Client components that run a session over a multicast or a unicast bus.

- `src/config.rs`: the client configurations (bus configuration, session
  configuration and, for multicast, the party identifying this node).
- `src/session.rs`: the traits a session implements.
- `src/component/`: building a component from its configuration and
  parameters; the start-up decision (which step comes next with which
  values, which error a failed step ends the start-up with, which
  clean-ups a successful one ends with) with its proved laws; the clean-up
  order.
- `app/`: the bus-specific type families and the drivers that perform the
  steps the library decides, the serializable configuration copies, and the
  displayable error copies.

# botmark

A Minecraft AFK bot. The library in `src/` holds the bot's protocol state
machine and anti-AFK scheduling, verified with Verus; the packet ids and
packet bodies come from the protocol crate in the program around it:

- `client.rs`: the connection state machine (handshake, login,
  configuration, play), the replies owed to each packet from the server
  (keep-alive echo, teleport confirmation, compression), and the cooldowns
  of the anti-AFK motions (head turn, arm swing every two seconds, steps
  that alternate forward and back), ticked once per game tick.
- `dashboard.rs`: the remote-control dashboard's routes (W/A/S/D moves, AFK
  toggle, command bar) and what each request does.
- `wire.rs`: VarInt encoding and packet framing.
- `laws.rs`: properties relating several operations.
- `args.rs`: run settings.
- `identity.rs`: the offline-mode player identifier derived from the name.
- `chance.rs`: the random pauses of head turns and steps.

`app/main.rs` is the program around it: command line, the web server that
serves the dashboard and answers health checks, TCP connection, packet bodies through the protocol crate, and the
floating-point easing of the bot's pose.

# mesagisto-center

A relay centre: clients connect over QUIC or WebSocket, subscribe to rooms
with control packets, and every other packet sent to a room is fanned out to
the room's other members.

- `src/` is the verified library: the room registry (`room`), the packet
  dispatch (`server`), the WebSocket read/write decisions (`ws`), the
  settings and how the centre starts (`config`), the server identity read
  from PEM texts (`tls`), and the trusted declarations of the shared map the
  rooms live in (`shared_map`). `laws` states and proves the properties that
  the registry keeps across calls.
- `app/` is the program around it: logging, the configuration file, the
  QUIC and WebSocket servers and the asynchronous fan-out.

# laic — LAIC protocol core, verified with Verus

LAIC (Latrix AI Interconnect) carries messages between AI systems: local
zero-copy IPC over iceoryx2 shared memory, remote transport over QUIC with
mutual TLS.

- `src/` is the library, verified by Verus: the 40-byte message header and
  its wire format, messages and communication patterns, error codes and
  texts, credit-based flow control, the trust-domain handshake decisions,
  the QUIC, IPC and emergency frame layouts, shared-memory service names,
  and Arrow IPC payload encoding and decoding. Calls into iceoryx2, Arrow
  and std that only compute stand behind small trusted wrappers whose
  contracts are documented beside them.
- `app/` is the ordinary Rust around it: the QUIC, IPC and emergency
  transports, TLS configuration, the gateway, Protobuf encoding and the
  async handshake exchange. The protocol checks and decisions it needs
  (header and frame checks, connection state, handshake steps, service
  names, poll decisions) are calls into the library.
- `tests/` runs the library with the real outside crates linked.

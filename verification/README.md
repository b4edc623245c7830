# intqual

A terminal network-quality monitor that measures ICMP and TCP latency side by
side, runs bandwidth tests and traceroutes.

- `src/` is the verified library (Verus): ICMP echo encoding and the RFC 1071
  checksum, decoding of echo replies and ICMP error messages, matching of
  received datagrams to probes, the engine's command handling, traceroute hop
  bookkeeping, the tick history ring buffer and the dashboard's input rules.
- `app/` is the program around it: sockets, async tasks, HTTP bandwidth test,
  terminal rendering and the command line.
- `tests/` exercises the library on concrete packets and command sequences.

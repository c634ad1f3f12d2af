# j2534-bridge

An out-of-process J2534 PassThru bridge: a host application talks JSON over a
named pipe to a bridge process whose bitness matches the vendor's J2534 DLL.

The decision logic is written in Verus and proved against its contracts:

- `src/j2534/`: PassThru frame layout, the connection-opening sequence, the
  drain-read session with transmit-echo filtering, K-Line init planning,
  batch writes and filters, and the device list built from registry entries.
- `src/worker.rs`: worker settings, the bounded receive buffer, and how each
  request becomes a connection operation and a reply.
- `src/bridge.rs`, `src/client.rs`: request routing in the bridge, and the
  client's request ids, bridge search path and reply checks.
- `src/dump/`: option parsing, candump-style output, K-Line framing and the
  loopback stress tracker of the `j2534-dump` tool.
- `src/text.rs`: decimal and hex rendering and whitespace rules.

`app/` holds what the prover does not see: the DLL calls, the named pipe, the
registry, threads, JSON encoding and the command line.

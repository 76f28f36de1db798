# wsdf

A library for writing Wireshark dissectors, with its logic proved by Verus.

Wireshark itself is not linked: the bindings to its C library are not part of this crate.
What a dissector does with Wireshark is modelled as plain values instead. Registration
produces the descriptions handed to Wireshark and records the handles it returns; the
protocol tree, the packet buffers and the per-packet information are values of the
library's own types. The code that talks to Wireshark passes those values across.

- `src/types.rs`: Wireshark's enumerations (field types, displays, encodings, expert
  severities and groups, plugin types) with their numeric codes, and the error types.
- `src/tvb.rs`: packet buffers and ranges of them, with reads of integers and text.
- `src/handles.rs`: the table from names to the handles that Wireshark assigns.
- `src/protocol.rs`: fields, subtree types and expert infos; the protocol and field
  builders; what registration hands to Wireshark and how the handles it returns are kept.
- `src/packet.rs`, `src/address.rs`: the per-packet information and addresses.
- `src/dissector.rs`: the protocol tree a dissector builds, and the dissection of a packet.
- `app/`: the parts that need outside traits (error messages, dissectors as closures).
- `tests/`: tests of the library on concrete values.

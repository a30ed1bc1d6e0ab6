# tracert

A graphical traceroute tool whose core is verified with Verus.

- `src/` is the verified library:
  - `icmp`: ICMP/ICMPv6 echo requests with their Internet checksum, and the
    recognition of echo replies and time-exceeded messages that answer a probe.
  - `traceroute`: the trace settings, the hop-by-hop probing state machine
    (`TraceRun`), probe outcomes and address selection.
  - `geoip`: locations, their one-line description and country flag, the
    location table and the caching lookup service over an ipdb database.
  - `gui`: the state of the tracing console and its reaction to messages and
    trace reports.
  - `firewall`: the ICMP firewall rules the tool installs.
- `app/` is the program around it: the iced window, raw sockets, name
  resolution, threads and channels, the database file and the Windows firewall
  calls.
- `tests/` exercises the library on concrete values.

# bluestation

Verified core of a TETRA base station stack, written in Verus.

- `bits`: a bit buffer with MSB-first field reads and writes, and the laws
  that relate reading and writing.
- `umac`: ACCESS-ASSIGN PDUs (normal and frame 18), access fields, access
  codes, base frame lengths and usage markers, with encode/decode round trips.
- `sndcp`: SNDCP enumerations, the PCOMP negotiation element, the
  SN-ACTIVATE PDP CONTEXT DEMAND decoder, and the SNDCP entity's handling of
  received SDUs.
- `tmv`: logical channels and their classes.
- `tdma_time`, `tetra_types`: TDMA time arithmetic, addresses and directions.
- `channel_tracker`, `slot_locator`: on which downlink timeslots an
  individual or a group can be reached.
- `network_time`: the 48-bit network time broadcast; chrono places a time
  in its proleptic Gregorian year, stated exactly, and chrono-tz gives the
  time zone offset.
- `cmce`: call states.
- `stack_command`: the commands of the interactive console.

`app/` holds the console program: arguments, configuration loading, Ctrl+C
handling and the command loop.

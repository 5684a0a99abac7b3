# ws63_starter

Verified decision logic of the WS63 starter firmware (Wi-Fi station with
smoltcp DHCP, and the BLE/SLE radio profiles), written in Verus.

- `src/` — the library, verified by Verus: status-line formatting, clocks and
  wait deadlines, the Wi-Fi bring-up and BLE/SLE starter state machines, DHCP
  reactions, access-point selection, radio request construction through the
  `hisi-rf-core` facade types, and the resource report tool's command line.
- `tests/` — executable tests of the library against the real outside crates.
- `app/` — the firmware and host-tool glue: UART, RTOS hooks, interrupt
  handlers, radio and network loops that carry out what the library decides.

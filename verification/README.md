# sparklink

A host protocol stack for SparkLink Low Energy (SLE) radios, verified with Verus.

- `src/` is the library. Each type has a model, and each function says in its contract what it
  returns and how it changes that model. Properties that span several functions stand beside
  them as public proof functions.
- `tests/` runs the library on concrete values.
- `app/` ties the library to a machine: transfers on USB and serial lines, cryptography, the
  clock, settings as files, firmware, and the drivers.

The library does no input or output and keeps no global state. Whoever uses it hands in received
bytes, the time and the results of transfers, and carries out what it asks for. Hash, keyed hash,
cipher stream and key agreement are passed in as functions.

## Modules

| Modules | What they do |
| --- | --- |
| `bytes`, `text`, `ring`, `slots`, `errno` | byte strings, numbers as text, rings, tables, error codes |
| `sle_crc`, `sle_pdu`, `transport_frame` | checksums, advertising packets, transport frames |
| `sle_dli`, `sle_opcode`, `sle_dli_event` | controller interface: commands, events, a virtual controller |
| `sle_uart`, `sle_spi`, `sle_usb` | framing on the transports |
| `controller`, `sle_transport`, `sle_serdev`, `usb_probe`, `sle_fw` | controllers and how they are brought up |
| `sle_conn`, `conn_channel`, `conn_queue`, `conn_types`, `conn_afh`, `sle_phy`, `sync_link`, `tcid` | connections, channels, hopping, synchronous links |
| `sle_ssap`, `ssap_pdu`, `ssap_session` | services, their messages and sessions |
| `sle_crypto`, `sle_security`, `sle_rpa` | pairing, encryption, private addresses |
| `sle_adv`, `sle_dev`, `sle_power` | advertising and scanning, devices, power states |
| `sle_event`, `event_payload`, `sle_mgmt`, `sle_netlink`, `sle_uapi`, `sle_configfs` | events, commands, messages, requests and settings for programs |

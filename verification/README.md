# liana_gui (verified core)

The decisions behind three parts of the Liana wallet GUI, written in Verus and
proved against their contracts:

- `contacts_panel`, `contacts_view`, `settings`: the contacts screen — adding,
  deleting and registering contacts' identity keys on signing devices, storing
  and loading them per wallet, and what the screen shows.
- `receive_view`: what the receive screen shows for generated and previous
  addresses and for the devices that can sign or verify them.
- `import_descriptor`, `register_descriptor`, `backup_descriptor`,
  `installer`, `identity`: the installer steps that import a descriptor,
  register it on devices (with the identity parameters of registered
  contacts) and back it up.
- `pubkey`, `hexcode`, `text`, `hw`, `descriptor`: identity-key parsing, hex
  decoding, string helpers, the device and descriptor models.

Each step is a state machine: an event goes in, the new state and an action
for the host come out; `app/` holds the glue to devices and key types.

# mirai

Core logic of the Mirai Minecraft Bedrock server, written in Verus and proved
against its contracts.

- `src/` is the verified library: subchunk headers and block lookup, region
  indexing and iteration, heightmaps, the blob cache, packet framing and compression,
  the client session state machine, gamerules, command output and dynamic
  command enums, forms, inventories and the item ID mapping.
- `app/` is a small program around it. It starts the runtime and logging,
  builds the default configuration and the in-memory gamerule and command
  enum stores, logs the configured address and limits, and waits for Ctrl-C.
  It runs no network listener. It also holds the JSON form of menus, and the
  radial regions and viewer positions, which work on floating-point values.
- `tests/` runs the library on concrete values.

# zed_dart

The Dart and Flutter extension for Zed, with its decisions verified by Verus.

- `src/` is the verified library: the debug adapter configuration
  (`adapter`), debug scenarios from run tasks and debug configurations
  (`scenario`), VM service URIs and info files (`vmservice`), Flutter devices
  (`devices`), the slash commands (`slash`), the bundled MCP server (`mcp`),
  the language server (`lsp`) and completion labels (`completion`), on top of
  verified helpers for text, paths and UTF-8 lengths; `serde_json` writes
  the JSON text, behind trusted wrappers.
- `app/` is the extension itself: it implements Zed's `Extension` trait,
  converts Zed's types to the library's, and does the file,
  process, clock and network work the library decides on.
- `tests/` exercises the library on concrete values.

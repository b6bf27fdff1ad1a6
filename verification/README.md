# amplify_ffi

The data of a toolgraph's messages, and the operations that its C interface
offers on them, written in Verus and proved against their contracts.

- `src/` is the verified library. Each module holds one kind of value, its
  mathematical view, the operations on it, and the laws that relate them:
  - `region.rs`: spans of a source text;
  - `contents.rs`: what a message carries, a text or a list of entries;
  - `language.rs`: the language a source text is written in;
  - `ast.rs`: syntax-tree nodes and their children;
  - `msg.rs`: messages between tools;
  - `report.rs`: reports of the actions that tools took.
- `tests/` runs the operations on concrete values.
- `app/` is the C interface itself: `extern "C"` functions that take and give
  raw pointers and C strings, check what the caller hands over, and call the
  library; and the reporters and clients that send reports and messages over
  the network, through the `amplify` toolgraph library.

# cdp-lite

A lightweight client for the Chrome DevTools Protocol (CDP), whose decisions are proved
correct.

- `src/` is the verified library. It decides which target to attach to (`rest_client`), how
  a command is written on the wire (`protocol`), where an incoming message goes and how the
  wait for a reply ends (`client`), which events a subscriber sees (`event_filter`), which
  targets are tabs and what the `Target` commands carry (`browser`), and holds the JSON values
  it reads (`json`) and the errors (`error`). Every public function states what it returns.
- `app/` is the asynchronous client around it: HTTP discovery with `reqwest`, the WebSocket
  reader and writer tasks, the reply and event channels, and the `serde` forms of the
  messages. It hands plain values to the library and acts on what the library returns.
- `tests/` runs the library on concrete inputs.

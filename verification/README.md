# turtl_core

The verified core of a note-taking client's message handling and keychain.

- `src/key.rs`: keys as byte strings.
- `src/seqs.rs`: the first element of a sequence that satisfies a predicate.
- `src/keychain.rs`: key types and key references (with their stored
  fields), keychain entries, and the keychain itself: lookup, removal,
  storing (upserting) a key, and applying stored changes. The laws at the
  end of the file state what these operations keep and what they undo.
- `src/json.rs`: JSON values as messages carry them, with their contents
  as views, and lookup of elements and members.
- `src/dispatch.rs`: the names of the requests and events that the user
  interface sends; framing a raw message; routing its JSON to an event or
  to a request answered under its message id; reading each request's and
  event's arguments into the call it asks for; and the answer given from
  what that call gave back.
- `app/`: reads message text as JSON with `serde_json`, carries out the
  calls on the application's services (reached through a trait), sends
  the answers, and holds the serde forms of the library's types.

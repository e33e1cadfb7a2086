# addness

The logic of the Addness command-line client, written in Verus: each
function states what it returns in its contract and Verus proves it.

- `src/` is the verified library. One module per command group (`goal`,
  `org`, `chat`, `notification`, ...) holds the command enums, the checks on
  flags, the requests built from them and the lines printed for results.
  Shared pieces live in `text` (trimming, splitting, joining, truncation),
  `json` (the calls into `serde_json`), `paths`, `stream_event` (what each
  streamed AI event prints) and `goal_detail` (the `goal get` tree).
  The goal tree of `goal get` is assembled in `goal::GoalNode::build_tree`,
  whose contract states that the goals directly below the root are, in
  order, those whose parent it is; that no goal appears twice; and, where
  IDs are distinct and the root's own ID is not among the items (as in
  `goal get`, which leaves the root out), that every node holds exactly its
  own children.
- `tests/` runs the library on concrete values.
- `goal_flow`, `org`, `tool`, `thread` and `stream_event` hold the steps
  that decide between backend calls (siblings, delete-with-confirm, org
  switch, stream failures); `result_lines` and `listing` hold the result
  lines, empty-list notes and confirmation questions of the commands.
- `app/` is the unverified rim: terminal output with colours, prompts, file
  and standard-input reading, git, the browser login's HTTP calls and
  callback server, and the JSON flags that `serde` reads into structs.

Calls into outside crates (`serde_json`, `chrono`, `regex`, `sha2`,
`base64`, `ed25519-dalek`, `rand`, `uuid`, `colored`) go through small
trusted wrappers, each with a doc comment saying what its contract claims.

# Rust Browser Control

A controller of the in-app browser of a Codex task, with its decisions verified
in Verus.

The library decides, and touches nothing outside. An operation on the browser is
a state machine: the controller starts it, and from then on it is told what came
of its last action and answers with the next one. A thin program around the
library connects to the browser's Unix socket, sends, waits, reads and writes
files, and speaks MCP.

## Layout

- `src/config.rs`: the configuration, and the policy on which hosts may be visited
- `src/discovery.rs`: finding the socket of the task's own browser
- `src/client.rs`, `src/protocol.rs`: numbering, framing and matching of messages, and the calls
- `src/json.rs`: JSON documents, over `serde_json`
- `src/task.rs`: tasks, actions and events
- `src/flow.rs`: how operations go, as a mathematical function
- `src/operation.rs`, `src/controller.rs`: the same, executable
- `src/script.rs`, `src/reply.rs`, `src/report.rs`: scripts for the page, its answers, and the texts that operations end with
- `src/tabs.rs`, `src/files.rs`, `src/rollout.rs`, `src/path.rs`, `src/limits.rs`, `src/text.rs`: tabs, files, recorded turns, paths, limits and text
- `src/course.rs`, `src/laws.rs`: what holds of every run of an operation, whatever the browser answers
- `app/`: the MCP server
- `tests/`: tests of the library

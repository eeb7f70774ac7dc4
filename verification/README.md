# vapor_sdk_core

The Vapor SDK's command vocabulary, command specifications, and the decision
logic of its workflows: the portable Rust toolchain, Vapor-managed
workspaces and their Cargo runs, the deploy of first-party tool CLIs,
SteamCMD login, and the packaging and SteamPipe publishing of the app root.

The library in `src/` is verified with Verus. It is pure: the caller reads
environment variables, probes paths, reads manifests, and runs child
processes, and hands the library plain values; the library lays out paths,
validates requests, plans command lines, decides each workflow step, writes
script texts, and builds reports. Every public function states its result in
its contract, and the laws the workflows keep are proved as proof functions
(for example the guard laws in `safety.rs`, the VDF round trip in
`root.rs`, the plan-mode laws of packaging and publishing in `release.rs`,
and the search, sync, deploy, and environment laws in `workspace.rs`).

Packaging and publishing run as steps: `release.rs` lists the steps of a
run (reset, create, copy or count a tree, write the SteamPipe script, run
SteamCMD), and a tree walk says, path by path, what to copy and what to
count. The caller performs each step and answers each question about the
disk. In plan mode no step changes anything and SteamCMD never runs.

`app/` is the `sdk_cli` command-line program around the library: argument
parsing, prompts, terminal output, and the host work of each workflow.

`tests/` exercises the library on concrete values, including comparisons of
the path model with `std::path` and of the text helpers with `std`.

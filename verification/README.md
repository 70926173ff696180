# reef

A terminal workbench for a git checkout, on this machine or on one reached over
SSH: a file tree with a preview, a search over the workspace, the git status
with diffs, stashes and branches, and the commit graph.

## Layout

- `src/` is the library. Everything it decides or computes is stated in
  `requires` / `ensures` contracts and proved by Verus. It does no input or
  output: a step takes the state and what happened, changes the state, and
  lists the effects that the host has to perform (`src/effects.rs`).
- `app/` is the host: the terminal, the file system, `git`, the SSH transport
  and the JSON encoding. It performs the effects and hands their results back.
- `tests/` runs the library on concrete values.

## The library

| modules | what they hold |
| --- | --- |
| `proto`, `base64`, `convert` | the messages between client and agent, their framing, and the conversion of what travels in them |
| `agent`, `ops`, `remote`, `remote_files` | what the agent does with a request, what the client asks for, and how replies find their request |
| `backend`, `cli`, `paths`, `size`, `text`, `order`, `strmap` | shared values, command line, paths, text, ordering, maps keyed by strings |
| `file_tree`, `files_pane`, `files_drag`, `files_menu`, `files_paste`, `place` | the tree of files and what is done to it |
| `preview`, `preview_pane`, `editor` | what is shown of a file, when it is loaded, and the external editor's command line |
| `search`, `panel_search`, `global_search` | searching in a panel and over the workspace |
| `git`, `git_command`, `stash`, `refs` | reading what git reports |
| `git_pane`, `git_flows`, `git_focus`, `git_activate`, `git_stash`, `repo_catalog`, `graph` | the git tab and the graph tab |
| `layout`, `loads`, `effects`, `worker`, `actions`, `tick`, `app` | the screen, background loads, and the application as a whole |

Properties that relate several functions are proof functions named `law_*`.
What the library takes from the `image` and `infer` crates, and a few functions
of the standard library, stands behind declarations whose contracts are not
proved; each says in its comment what it claims.

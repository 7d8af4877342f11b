# rpatchur

A game launcher that downloads optional packs, switches the client between its
two sets of files and starts it. What the launcher decides stands in a library
that Verus verifies; what touches the network, the disk and the window stands
around it. The engine that applies THOR patches to the client is not part of it.

## Layout

- `src/`: the verified library.
  - `config`, `cancel`: what the launcher is configured with, and the flag that
    stops a download.
  - `text`, `status`: the scripts that the launcher runs in its page.
  - `digest`: SHA-256 of files that are read piece by piece.
  - `mode`: which set of game files is active, and whether they can be trusted.
  - `mode_switch`, `hd_cleanup`: changing the active set, and freeing the space
    of the other one.
  - `part_stream`, `file_download`, `pack_download`: one attempt at a file, the
    attempts at a file, and the files of a pack.
  - `request`, `session`, `window`: what the page asks for and what follows.
  - `updater`: the helper that replaces the launcher.
  - `*_laws`: what holds of every run of these, whatever fails on the way.
- `tests/`: the library on concrete values.
- `app/`: the launcher and its helper.

Work that alternates with the outside runs as a state machine: `action` names the
next operation, and `advance` takes in what came of it.

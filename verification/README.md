# minimap_renderer

Replay analysis for World of Warships: decoding the entity method calls of a
replay, keeping the state of a battle as its packets arrive, and the decisions
behind rendering a replay's minimap to video. The library under `src/` is
verified with Verus; `app/` holds what touches files, the command line,
floating-point geometry and the outside crates' own types.

Modules of the library:

- `types`, `version`, `bytes`, `text`, `rpc`: identifiers, client versions,
  little-endian reads, number and string helpers, RPC argument values.
- `decoder`, `events`, `packets`: the game's numbered tables (ribbons,
  causes of death, consumables, ...), command blobs, the decoding of entity
  method calls, and of the packets that describe the recording player's view.
- `players`, `vehicle`, `controller`, `state`: player states from pickled
  values, vehicle properties, crews, ship configurations, connection
  histories, deaths, capture points and team scores.
- `timeline`, `battle`, `chat`: the clock-ordered timeline of a battle, the
  battle's bookkeeping as packets arrive, and chat sender names.
- `advantage`: which team is ahead, and by how much.
- `render`, `video`: renderer options and configuration, what is drawn for
  each ship and plane, kill feed and score bar, frame pacing and the H.264
  samples of the MP4 output.
- `survey`: survey tallies, the audit report, the packet filters of the
  investigation tool and the latest game build.

# jiaoziflow_runtime

The runtime of a data-pipeline node, with its logic verified by Verus.

A node runs a user container beside a data container. Batches of files
arrive from upstream nodes, are cached, handed to the user container over a
local IPC protocol, and the batches it produces are sent on to downstream
nodes. A job database records every batch and every node's state.

## Layout

- `src/` is the verified library. Every decision the trackers take is a
  function or a step machine with a contract: the caller performs the action
  it returns (a database call, a cache write, a network send) and feeds back
  what came of it.
  - `incoming`, `outgoing`, `requests`, `upstream`: the compute and media
    nodes' handling of batches and of the user container's requests.
  - `channel`, `backend`: the channel nodes' handling, and the periodic
    background rounds of every node.
  - `ipc`, `ipc_server`, `ipc_client`, `stream`: the IPC protocol, its error
    numbers and wire form, and the replies on each side.
  - `mprc`, `cache`, `multi_sender`, `program`: the receiver registry, the
    in-memory batch cache, the fan-out to downstreams and the batch states
    of a runner.
  - `tracker`, `node`, `state`, `batch`, `metadata`, `text`, `monitor`,
    `models`: records, node-program decisions and the plain data types.
- `app/` is the unverified I/O around it: the async loops, the unix-socket
  IPC server and client, the on-disk cache and the serde forms.
- `tests/` runs the library on concrete values.

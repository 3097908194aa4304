# codex_master

A relay between browsers and coding agents. A *home client* runs an agent on a
machine and offers its workspaces; a *relay server* lets logged-in browsers open
sessions in those workspaces, send prompts, answer permission requests and read
the history. The rules of both programs are a library verified with Verus.

## Layout

- `src/` is the library.
  - `protocol`, `types`: the messages and what they mean.
  - `config`, `config_error`, `reconnect`: settings of the home client, and how
    long it waits between connections.
  - `runtime`, `transport`: what the home client does with a command, with what
    the agent reports, with a line of the console and with a frame of the relay.
  - `relay_state`, `segment_order`: the relay server's store, its snapshot and
    its event log.
  - `relay_server`: settings, logins, sockets and the messages of browsers and
    devices. Where something has to be written or sent, a function returns a
    `Step` that says what, and goes on in `follow_up` with how it went.
  - `store_laws` and the `*_laws` modules of `relay_server`: what holds across
    operations, such as that a restart reads back what was written.
  - `text`, `seqs`, `sorting`, `string_map`, `duplicate`: the tools these rest on.
  - `clock`, `paths`: what is taken from the system.
- `tests/` runs the library on concrete values.
- `app/` is the program around it: environment, files, sockets, JSON and the
  agent's process. Without an argument it is the home client, with the argument
  `relay-server` the relay server.

## Reading the contracts

Each type has a model, its `deep_view`, over sequences and numbers. A function
that changes the state is specified by a spec function whose name ends in
`_step`, from the model before to the model after and the answer. Functions that
read the clock have a variant ending in `_at` that takes the time.

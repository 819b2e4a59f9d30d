# gib

gib is a small package manager: a registry server that accepts package
archives (gzip-compressed tar files with a `package.toml` description) and
serves them back, a command line client that installs packages from the
registries it knows, and a web front end.

The logic is a Verus library (`src/`), verified against its contracts:

- `names` — how package names and versions are normalized and checked.
- `archive` — finding the package description inside an archive.
- `upload`, `fetch`, `login` — the registry's request handlers, each a state
  machine that the server drives: it performs the database and network work
  and reports back what came of it. Laws about whole runs (answered at most
  once, one field read and at most one package record and archive written
  per upload, only valid packages are created, a published archive is the
  one later fetches ask for, logging out twice answers the same, tokens go
  to the signed-in user) are proved next to each machine.
- `basic_server` — the smaller registry server and its upload handler.
- `client`, `tree_copy` — the client's files, URLs, installation order and
  configuration updates, and the directory copy used when installing (whose
  walk visits each directory once for each time it is found).
- `web` — the state of the page header and the session token reading.
- `common`, `models`, `response` — shared records and HTTP responses.

`app/` holds the programs around it: the HTTP servers (actix-web, diesel),
the command line clients (clap, reqwest), and the yew components. `tests/`
runs the library on concrete values.

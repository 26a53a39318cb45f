# app_core

The domain core of a file-sharing backend, written in Verus. Verus checks
every function under `src/`, and each public one carries a contract that it
proves.

- `level`, `access`: permission levels, and the level a user holds on a
  directory or a file, drawn from ownership, direct grants and grants on any
  directory above it. The operations take the facts the database answered
  (`AccessFacts`) and decide from them.
- `directory`, `file`, `sharing`: the guards and decisions of each operation
  (name validation, moves that keep the tree acyclic, grants capped at the
  granter's own level, revocations).
- `encryption`, `compression`, `file`: the storage pipeline. `upload_file`
  guards an upload and hands it to `prepare_upload`, which gzips an upload unless it is already dense, seals it with
  AES-256-GCM under a fresh data key that is itself sealed under the master
  key, seals an image's thumbnail under the same key, and builds the row; its
  contract states that the stored content, read back through
  `restore_content` on that row, gives the bytes that were handed in.
  `settle_record` decides what a failed write of the row answers and which
  blobs it leaves to remove.
- `api_key`, `web`, `session`, `respond`, `parameters`: API keys, the
  decisions of the HTTP layer (redirects, download headers, credentials,
  cookies, multipart uploads, the advertised version) and the error answers.

Calls into `aes-gcm`, `flate2`, `sha2` and `rand` stand behind small
trusted wrappers whose contracts state what those crates document.

`tests/` runs the library on concrete values. `app/` is ordinary Rust around
it: the asynchronous operations that read the database and the object store
and carry out what the core decided, logging, the git-derived version, and
serialisable copies of the library's types.

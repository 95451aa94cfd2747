# codex_plus_core

The decision logic of Codex++ administrator mode on Windows, verified with
Verus: how the administrator shims parse their invocations and talk to the
elevated brokers, how the brokers admit clients and relay their streams, and
how the configuration files the mode changes are installed, journaled and
restored.

Layout:

- `src/` — the verified library. Each module states its behaviour in
  `requires`/`ensures` contracts over mathematical models and proves it:
  - `text`: character and Windows path helpers the other modules share;
  - `encoding`: hexadecimal and little-endian encodings, and the trusted
    calls into `serde_json`, `sha2`, `base64`, `uuid`, `toml` and the system
    random source;
  - `frame`: length-prefixed and multiplexed frames, and the relay steps of
    both ends;
  - `shim`: invocations, hellos, proofs and replies of the shims;
  - `windows`: SIDs, pipe names and pipe security descriptors;
  - `exec`: terminal shell selection, Store package checks, client
    admission and the readiness probe of the exec broker;
  - `shell_candidates`: where the elevated terminal looks for PowerShell 7,
    from the Store and elsewhere;
  - `runtime_copy`: the file names and paths of a staged runtime bundle;
  - `computer_use`: the Computer Use broker's files, helper admission by
    hash, its start (a step function with the rollback of each stage),
    client admission and
    stale-session recovery (a state machine that names each file and
    process step and leaves doing it to its caller);
  - `environment` and `feature`: the `environments.toml` and `config.toml`
    transactions and their restore plans (`feature` edits `config.toml`
    through a handful of trusted `toml_edit` accessors, over a model of the
    document's tables);
  - `admin_mode` and `app_server`: session layout, status, shutdown and the
    app-server bootstrap script.
- `tests/` — tests of the library on concrete values.
- `app/` — the shims' executable: environment, files, named pipes, processes
  and stream relays around the library's decisions. The elevated brokers,
  the transactions' file work and the recovery drivers need Win32 calls
  this crate does not link, so no executable here runs them; the library
  states their decisions for such a host.

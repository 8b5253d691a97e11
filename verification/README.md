# Andromeda Client

A desktop launcher for legitimate Minecraft accounts, written as a verified
library (`src/`, checked by Verus) and a thin executable (`app/`).

## Layout

- `src/` — the library, verified by Verus. Where a function hands work to an
  outside crate (reqwest, sha1, sha2, hex), its contract states what it hands
  over and, as far as that crate documents it, what comes back; whether an
  HTTP client can be built on a given machine is left open:
  - `config` — settings schema, validation, load decisions and recovery notices;
  - `domain` — application errors and task progress;
  - `state` — the UI state machine: navigation, the progress demonstration,
    settings and catalog events, the catalog list;
  - `minecraft` — Mojang metadata types, ordered last-match rule evaluation,
    manifest validation and the catalog refresh decisions;
  - `download` — download plans (path, URL, id and checksum checks, with `/`
    and `\` both read as separators), retry and backoff policy, safe resume,
    streaming SHA-1/SHA-256 integrity checks, the checks on what the file
    system holds, and the step function of one job (check, attempt, wait,
    verify, publish);
  - `net` — the URL policy (HTTPS, or HTTP to a loopback host);
  - `http` — construction of the HTTP client every request goes through;
  - `platform`, `telemetry`, `text` — directory layout, secret redaction and
    character-level helpers.
- `app/` — the Iced UI, HTTP transfers, file I/O, JSON documents, logging and
  the async loops; between pieces of I/O it asks the library what to do next.
  Widget layout and the progress fraction (floating point) are its own.
- `tests/` — tests of the library on concrete values.

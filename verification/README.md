# singboard update logic

The update logic of the singboard panel and of the sing-box core it manages,
as a Verus-verified library.

- `src/` — the verified library:
  - `text.rs`: character scans (trim, prefixes, ASCII case, decimal text) over `Seq<char>` models;
  - `version.rs`: version tags and the "newer than" order, with its laws;
  - `digest.rs`: `sha256:` digests and the checks against a file's hash;
  - `panel.rs`: the panel's releases, trusted download URLs and update report;
  - `release.rs`: core releases, asset choice, release URLs, mirrors, GitHub replies;
  - `core_files.rs`: staging-directory files, archive entries, the staging manifest;
  - `swap.rs`: the step machine that installs a new core and rolls back on failure;
  - `overwrite.rs`: the step machine that overwrites the panel, and the retry policy;
  - `search.rs`: first matching element of a sequence.
- `tests/` — tests of the library.
- `app/` — the Tauri commands that perform the network, file, process and
  Windows service operations around the library.

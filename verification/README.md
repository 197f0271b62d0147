# pyanpm

A package manager for Roblox Studio plugins: a global manifest names the
plugins to install and where they come from (a local file, a package folder
or a Git repository), a lockfile records what was installed, and a content
cache keeps every artifact once per checksum.

The library under `src/` is written in Verus. Its functions carry contracts
over mathematical models (sequences, maps and the views of its types), and the
properties that span several operations are stated as proof functions:

- `config`, `plugin`, `paths`, `text`, `order`: manifest and lockfile models,
  plugin names, path text, sorting.
- `source`, `git`, `checksum`, `install`, `cache`: how a source reference is
  parsed and resolved, the git steps and their errors, checksums, install
  targets and the cache layout.
- `command`, `installation`, `update`, `diff`, `activity`, `audit`: what each
  operation decides and records; the doctor's findings.
- `cli`, `desktop`, `report`: command dispatch, desktop settings and the
  printed report lines.

The program under `app/` reads and writes the files, runs git, walks folders
and prints; it hands the library plain values and acts on its answers.

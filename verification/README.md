# proton_tracer

Command-line tooling of a GPU proton-radiography tracer: input decks, `--set`
overrides, parameter sweeps, run directories and their metadata, binary
counts and field/density grids, and re-rendering of radiographs.

## Layout

- `src/` — the verified library (Verus). Every function in it carries a contract
  over mathematical models (`Seq`, `nat`, spec functions) and is proved.
  - `text` — trimming, splitting, decimal and hex formatting, integer parsing
  - `overrides` — `--set key=value`: canonical keys, values, deck settings
  - `cli`, `commands`, `render_args` — command-line scans of every mode
  - `sweep` — `--param` specs, zipped sweep points, labels, status tracking
  - `run_dir` — run directory layout and metadata records
  - `counts`, `grids`, `inspect` — little-endian counts, `.bfld`/density
    grids, checks of counts files against their recorded shape
  - `source_plan`, `materials`, `config`, `gui` — deck checks and settings
  - `particles` — Morton codes and the Z-order layout of particles
  - `digest` — SHA-256 digests of input files
- `tests/` — tests of the library on concrete values.
- `app/` — the program: file and process I/O, logging, JSON/TOML (serde),
  floating-point physics, detector response and PNG rendering.

Particle tracing itself (Vulkan compute shaders, the windowed GUI and the
3D view) is not part of this build. The `run`, `gui` and `demo` modes read
their command line, and `run` prepares its run directory, log and metadata
(deck, fields and their SHA-256 digests), then stops with an error saying that
the tracer is not included. The other subcommands (`init`, `validate`,
`explain`, `inspect`, `analyze`, `render`, `sweep`) work in full; the points of
a `sweep` run `run`, so they end as failed in this build.

The library's only trusted items are the wrappers around `String::push`,
`slice::sort_unstable_by_key` and `sha2::Sha256::digest`, each with a
doc comment stating what is assumed of it.

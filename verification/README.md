# openharmony_cli

The OpenHarmony commands of the Tauri command line (`openharmony init`,
`openharmony dev`, `openharmony build`) with their decisions verified in Verus.

- `src/` is the verified library.
  - `cli`: the subcommands and their dispatch.
  - `builder`: `build` as a step machine — cargo build, locating the
    OpenHarmony project, copying the native libraries, running hvigor.
  - `dev`: `dev` as a step machine — the build, then the device script that
    installs and starts the app.
  - `workflow`: the requests a step machine makes and the reports it takes.
  - `project`: planning the generated OpenHarmony project (template paths,
    created directories, icons).
  - `paths`: paths as sequences of components.
  - `noise`, `error`: verbosity levels and errors.
- `app/` performs what the step machines ask for (processes, files,
  environment) and parses the arguments with clap.
- `tests/` runs the library on concrete inputs.

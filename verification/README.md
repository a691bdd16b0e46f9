# cdk-make-assistant

`cdk-make-assistant` discovers C-SKY CDK workspaces (`.cdkws`) and projects
(`.cdkproj`), remembers a build selection in `.cdk-make-assistant.toml` at the
project root, and invokes `cdk-make.exe` with an argument list (no shell
quoting).

Layout:

- `src/` is the verified library. `text` and `paths` hold string and path
  helpers; `json` reads the JSON that `yq` prints and `document` reads the
  files' contents from it (or as the native XML reader hands them over); `parser` completes workspaces
  and projects; `discovery` decides where to look and orders what it finds; `config` holds the
  configuration and the search for the local configuration file; `cli` chooses
  the workspace, project and build configuration and prepares a run; `runner`
  maps a run to `cdk-make` arguments; `counter` is the state of the small
  counter window.
- `app/` is the program: command-line parsing, files, processes, XML and TOML
  (de)serialisation and terminal prompts, driving the library's decisions.
- `tests/` exercises the library on concrete values.

# nssm-rs

A Windows service wrapper: `nssm-rs install <name> <exe> [-- <args>...]` registers a
service that runs `<exe>`, restarts it with exponential backoff when it crashes,
logs its output, and stops it with Ctrl+C before killing it.

- `src/` is the verified library (Verus). It decides and computes: the supervisor
  state machine (`monitor`), the shutdown state machine (`termination`), the restart
  backoff (`backoff`), the registry layout of a configuration and how it reads back
  (`config`), the command line of the wrapped program (`launch`), what each
  command registers with the service control manager (name, display name,
  program, arguments, start mode, process model, error control, account) and
  prints (`commands`, `text`).
- `app/` is the program around it: argument parsing, the service control manager,
  the registry, processes and the console. It performs the actions the library
  asks for.
- `tests/` exercises the library on concrete values.

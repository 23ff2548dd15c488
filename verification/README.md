# ds

The core of `ds`, the Entropic package manager's command line, written in
Verus: package-argument parsing, version picking and the decisions of the
`ds` and `dstopic` commands, each with a contract that Verus proves.

- `src/` is the verified library.
  - `text`: character search and case folding used by the parsers.
  - `version`: semantic versions and requirements as plain values; parsing,
    ordering and matching are semver's, behind wrappers.
  - `host`: registry hosts, found by the url crate.
  - `error_context`: the `DS1000`–`DS1018` error codes and their messages.
  - `package_arg`: the `ds` package-argument grammar and parser, with laws.
  - `dstopic_package_arg`: the `dstopic` package-argument parser.
  - `package_arg_types`: the Entropic/npm package-argument types.
  - `packument`: packuments, with version and tag maps.
  - `pick_version`: choosing the version an argument asks for, with laws.
  - `config_options`, `dstopic_config`: which configuration sources are read,
    and in what order, with laws.
  - `commands`, `dstopic_commands`, `cli`: the subcommands' decisions.
- `tests/` runs the library on concrete values.
- `app/` is the program: argument parsing, configuration loading, HTTP, the
  file system and processes, around the library.

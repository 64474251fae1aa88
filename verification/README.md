# WinSweep

A disk cleaner for Windows whose decisions are proved correct with Verus.

`src/` is the verified library. Every function there states what it returns
in `requires` / `ensures` clauses over mathematical models (sequences of
characters for paths and text, `Seq`, `Map`, integers), and Verus proves the
code against them. It holds what WinSweep decides:

- which paths must never be deleted, and what a cleanup run over the
  scanned items records and frees (`cleanup`);
- what a scan reports for each file and build-artifact folder, and whether it
  is safe to delete;
- where each of the package managers, browsers and tools keeps its caches,
  how those caches are described, which folders a cleanup of them deletes,
  empties or (in a dry run) only measures, and the result it reports
  (`cleaners`); what a Docker cleanup removes and its result
  (`docker_cleanup`);
- a model of Windows paths (`path`, `path_order`): joining, components,
  `starts_with` / `ends_with`, equality and ordering as `std::path::Path`
  defines them;
- parsers for the output of `docker`, `wsl`, `pip`, `git lfs`, Maven's
  `settings.xml`, version strings, the audit log, the IPC frame format;
- following a chain of junctions and symbolic links to its end, and
  reading a link's name out of its reparse data (`link_chain`);
- the Windows edition, WSL disk compaction order, service,
  restart-manager (including the shut-down / run / restart sequence) and
  updater decisions.

Where a decision needs something only the system can tell (whether a path
exists, what a command printed, the home directory, the time), the library
takes that answer as an argument. A few calls into outside crates stand in
the library behind `#[verifier::external_body]` wrappers whose contracts say
what the crate documents: `chrono` (RFC 3339 parsing), `regex`,
`serde_yaml`, `shellexpand`, and some functions of `std`.

Laws that span several functions are public proof functions whose names
start with `law_`.

`app/` is the command-line program: argument handling, logging, walking the
file system, running the tools' commands and `docker`, deleting the folders
a plan names and, with `--delete`, the scanned items the library lets go,
and printing results. It asks the library what to clean and
hands it back what each step did; the library computes the result.

`tests/` runs the library on concrete inputs.

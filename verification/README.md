# buildlog-consultant

Finds the line of a Debian build log (or apt, autopkgtest or Breezy output) that
explains why a build failed, and names the problem it shows: a missing command, file,
Python module, pkg-config package, and so on.

The library in `src/` is written in Verus: each public function states what it returns
in its contract, and Verus proves the code against it.

- `logmatch`, `lines`: located matches and walks over the lines of a log.
- `pattern`, `text`: regular expressions (through the `regex` and `fancy-regex`
  crates) and text operations, with their contracts.
- `matcher`, `template`, `tables`, `common`: the rules that recognise failures in build
  logs and the search that applies them.
- `problem`, `json`: the problems found, their JSON details, and reading them back.
- `apt`, `cudf`, `autopkgtest`, `autopkgtest_failure`, `brz`: analysis of apt,
  autopkgtest and Breezy output.
- `llm`, `kinds`: prompts for a language model and the reading of its replies.

`app/` holds the command-line program: reading files, printing, and talking to the
language model service. `tests/` holds the tests.

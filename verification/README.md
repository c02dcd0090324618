# whisphub

The WhispHub command-line client (`whisphub login`, `whoami`, `logout`,
`init`, `push`), written as a verified library plus a thin program.

- `src/` is the library, verified with Verus: slugs (`slug`, `project`), text
  helpers (`text`), path joining (`paths`), the credentials location and
  session rules (`config`), endpoint addresses and response checks (`api`),
  the device-login polling schedule and decisions (`login`), the input checks
  of `init` (`init`), the upload rules of `push` (`push`) and the zip archive
  (`archive`).
- `app/` is the program: argument parsing, prompts, coloured output, files,
  the directory walk and HTTP.
- `tests/` exercises the library on concrete values.

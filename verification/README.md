# emux

A terminal browser for lists of downloadable items (ROM lists and local
folders), with search, favorites and per-list commands.

- `src/` is the library, verified with Verus: navigation over lists and
  items (`scroll`, `navigation`, `app`), search filtering, favorites,
  command selection (`commands`), what a download or a command run
  involves (`launch`), how a new list is built from `curl` output
  (`links`), what the screen shows (`render`), key handling (`events`),
  and the text, path and URL helpers they rest on (`text`, `paths`,
  `urlcode`, `order`).
- `app/` is the program around it: the terminal loop, reading and writing
  files, running commands and downloads, and drawing with ratatui.
- `tests/` exercises the library on concrete values.

# commit

Commit is a menu-bar app that writes git commits for the repository you touched last.
This crate holds its logic, verified with Verus; `app/` holds the Tauri program around it.

- `repo`: the `owner/repo` name of a remote URL, the branch of a symbolic `HEAD`, the
  latest change among a repository's files, and the repository that changed last
  (through the `priority-queue` crate).
- `config`: the settings, their defaults, and how an update changes them.
- `commands`: commit messages, notifications, and the steps of a settings update.
- `setup`: the steps taken once at start.
- `tray`, `window`: what events on the menu-bar icon and on the windows do; the name
  shown for a repository.
- `text`: character-level helpers and their specifications.

The tests under `tests/` run the library on concrete values.

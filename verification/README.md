# rusty_vault

A terminal password vault. The library under `src/` holds its rules, proved
with Verus:

- `page`: the pages, their tab positions, text-prompt answers and key presses;
- `crypto`: the calls into Argon2, AES-256-GCM and the random generator, with
  the contracts they are trusted to meet;
- `clock`: calendar dates and today's date;
- `entry`: a saved login and how its password is shown;
- `security`, `database`: the login-password hash, the database key, the key
  pair, and sealing and opening the encrypted database;
- `manager`: the screens' decisions, one key press or answer at a time, over a
  manager whose page changes only through those decisions and whose password
  list unlocks only after a passed login check and the loading of the
  database (a type invariant);
- `error`: why a login or the database could not be checked or opened.

`app/` is the terminal program around it: the input thread, the `tui`
screens, the clipboard, and reading and writing the key and database files
(with their JSON forms).

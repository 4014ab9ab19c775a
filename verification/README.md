# cs

`cs` switches between the logins of a CLI. The credential that the CLI uses is one entry
of the keychain, the canonical entry; every profile keeps a credential in an entry of its
own. Switching copies a profile's credential into the canonical entry, after it has
copied the live one back: the CLI rotates its token while it runs, and a rotated token
makes the one before it worthless.

## Layout

- `src/` is the library. A command is a job: it names the action it waits for, takes the
  reply, and goes on until it ends. All that the library decides is verified.
  - `commands/` holds the commands, each as a type with `pending` and `after`.
  - `effect.rs` holds the actions and the replies, `remark.rs` what goes to the log.
  - `laws/` states what holds of whole commands: how each one ends in a world that does
    what it is asked, and what it never does whatever the replies are.
  - `shell/` edits the block of `cs` in an rc file, with its laws beside it.
- `app/` performs the actions: keychain, files, processes.
- `tests/` runs the commands in a world held in memory.

# restic-manager

Manage restic backups with scheduling and notifications: run backup jobs
with pre- and post-backup hooks, apply retention policies, restore, check
and unlock repositories, run a cron-driven scheduler daemon that reports
to Telegram, and browse everything in a terminal dashboard.

## Layout

- `src/` is the library, verified with Verus. It holds the logic:
  - `config`, `secrets`, `names`: the configuration model, its validation,
    and resolving a job to its repository and password;
  - `cli`: the command-line grammar, parsed into a command, with its help
    and error texts;
  - `backup`, `snapshot`, `restore`, `repository`, `restic`, `exclude`:
    the `restic` invocations as data, and the reading of what they report;
  - `scheduler`: cron schedules, per-minute trigger bookkeeping, one run
    per job at a time, and what a finished run notifies;
  - `notifications`: which Telegram messages go out, how often, and what
    they say;
  - `tui`: the dashboard's state machine and the text of its panes;
  - `report`, `cli_log`, `text`, `json`, `errors`: output text, log
    entries, string and JSON helpers, and error messages.
- `app/` is the program around it: reading files, running processes, the
  tokio daemon loop, HTTP, and drawing the dashboard.
- `tests/` exercises the library on concrete values.

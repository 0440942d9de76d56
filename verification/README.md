# closeclaw_config

Configuration management for CloseClaw: the JSON configuration files under
the configuration directory, their validation, startup loading, hot reload,
restart staging, agent configuration resolution and permissions.

- `src/` is the verified library: functions with contracts proved by
  Verus for the section validators, the order of the startup load and the
  per-section load and reload decisions, the section store with its
  blocked and restart-staged values, the per-agent choice between merged,
  single-level and default configurations and the memory-settings merge,
  permission intersection and the permission cache, credentials handling,
  the watcher's debounce state machine, JSONC comment stripping, and the
  laws that relate them (`law_*` and `lemma_*` proof functions).
- `app/` performs the I/O around it: reading and writing files, backups,
  walking the credentials and agents directories, the `notify` watcher
  thread, git queries, and the serde forms of the configuration types.
- `tests/` exercises the library on concrete values.

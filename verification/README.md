# ettac

Deploys a project to the hosts that a Lua script describes.

- `src/` is the verified library:
  - `context`: host and SSH settings, how a script's table becomes settings,
    how a host's own settings are laid over the defaults, and when they make
    a complete host;
  - `table`: how a `default()` call sets a table into the defaults;
  - `deploy`: which hosts a run deploys, and which requested hosts are unknown;
  - `access`: the shell line run on a remote host, the marker of remote
    access errors, and the result of a command;
  - `library`: base64 helpers offered to scripts;
  - `text`: character search in strings;
  - `config`, `error`: the run's settings and its errors.
- `app/` is the command-line program: argument parsing, the Lua interpreter,
  SSH sessions and local processes.

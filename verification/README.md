# proxy-fw-ssh

An SSH proxy that acts as a firewall for sandboxed development environments. A
git process in the sandbox reaches its servers through the proxy, which holds
the SSH keys and decides, repository by repository, what may be read and what
may be written: by stored rules, or by asking the user.

- `src/` holds every decision the proxy takes, verified with Verus:
  - `rules`: the stored rules, and what they say of a command
  - `prompt`: questions to the user, and what a click answers
  - `session`, `exec`, `auth`, `relay`: the client, its commands, its login, and
    the messages on its channels
  - `channels`: which channels belong together
  - `proxy`: the course of a connection
  - `addr`, `key`, `table`, `text`: addresses, keys, maps and strings
- `tests/` runs the library, with the crates it calls.
- `app/` is the program around it: files, sockets, SSH and windows.

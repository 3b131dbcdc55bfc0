# vulpecula

A single-host deployment manager: it runs projects as Docker containers,
fronts them with a Caddy proxy, keeps a host firewall, installs packages and
stores parameters, secret ones under envelope encryption.

## Layout

- `src/` — the verified library (Verus). Request validation and the answers
  of the HTTP API (build records included), the checks of the configuration, the decisions of the container, proxy, firewall and
  package reconcilers, the firewall command plans for `iptables` and `nft`,
  the proxy's routes, DNS credential and configuration document, how the
  registry, proxy and project containers are created, envelope encryption
  of secrets,
  and the parser of `/etc/os-release`. Laws that span several functions are
  public proof functions named `law_*`, next to the functions they speak of.
- `tests/` — tests of the library on concrete values.
- `app/` — the server around the library: configuration, SQLite queries,
  the Docker daemon, the proxy's admin API, running firewall commands, the
  reconcile loops and the HTTP routes. It asks the library what to do and
  does it.

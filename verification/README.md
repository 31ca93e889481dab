# gem_audit

Audits a Bundler `Gemfile.lock`: which sources are fetched over an insecure
protocol, which locked gems and which Ruby interpreter have known advisories, and
what the command line tool does with the answer.

The library under `src/` is written in Verus, and each function is proved to meet
its contract.

- `scanner`, `report`, `severity`: the audit, what it finds, and in which order.
- `lockfile`, `advisory`: what an audit reads, as plain values.
- `check`, `configuration`, `ids`: how old the advisory database may be, and which
  advisories a project ignores.
- `audit`, `maintenance`, `fixes`, `options`, `exit`: the commands, as state
  machines. The front end does what they ask for and tells them what came of it.
- `laws`: what holds of audits as a whole.

`app/` is the front end: the command line, files and the clock. What touches git,
YAML or the network is supplied to it by the binary, as a `Backend`.

# speed-test

A command line program that measures a home network: download, upload, latency and jitter. It
keeps its results in a database, lists and exports them, and has a configuration file.

- `src/` is the library: the configuration and how an older one is brought up to date, the choice
  of a server, the course of each measurement, what is stored and how it is read back, and what
  the user is shown. It is verified with Verus.
- `app/` is the program around it: arguments, files, the database, the network, the terminal, and
  floating point.
- `tests/` runs the library.

A measured number is an IEEE 754 double. The library holds it by its bit pattern and proves what
it needs of it: how two of them compare. Means, deviations and speeds are computed in `app/`.

The calls into other crates that the library makes are few: reading and writing of RFC 3339 times
(`src/time.rs`), URLs (`src/net.rs`), random bytes (`src/transfer.rs`), and the standard library's
parsing of integers (`src/number.rs`). What is taken on trust of each stands in its contract.

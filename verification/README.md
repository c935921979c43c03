# alfred_updater

Lets an Alfred workflow find out whether a newer release of it exists, and
download that release.

- `src/` is the library, written in Verus: its functions have contracts, and
  these are proved. It decides what to do next and never touches files or the
  network. Versions are read and compared by the `semver` crate, times by
  `chrono`; the few calls into them are the trusted part, and each says what it
  claims.
- `src/laws.rs` and `src/order.rs` state what holds of the updater as a whole.
- `app/` is ordinary Rust around the library: the environment, the files, the
  network and the worker thread.
- `tests/` runs the library on concrete values, without files or network.

# pam

Building blocks for PAM modules written in Rust, verified with Verus.

- `src/` is the verified library: the Linux-PAM constants and result codes
  (`constants`), the checks and result handling around every libpam call and
  the module hooks (`module`), and the checks and result handling of the
  conversation with the user (`conv`). Each public function states exactly
  what it returns; the laws (code round trips, when a call succeeds, when a
  string is refused as a C string, that a stored user name reads back the
  same) are proof functions beside them.
- `app/` is the FFI edge: the `extern "C"` declarations of libpam, the calls
  through raw pointers, the conversation call, the zeroing reply buffer and
  the `pam_hooks!` macro that exports a module's entry points. It asks the
  library for every decision.
- `tests/` runs the library on concrete values.

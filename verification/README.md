# lrs

Descriptor-level file access for Linux, with its contracts proved by Verus.

Each file operation in `src/file.rs` says which system call it needs (a `Call`,
with a NUL-terminated path beside it where the call takes one), and a companion
function turns the call's raw return value into the operation's result,
including which calls are repeated after `EINTR`. The calls themselves are made
by `app/`, which issues them through the C library and gives files a `Drop` that
closes owned descriptors.

- `src/errno.rs`: error numbers; decoding of raw return values.
- `src/call.rs`: the calls, and the steps of multi-call operations.
- `src/cstring.rs`: owned C strings.
- `src/flags.rs`: open flags and access modes.
- `src/file.rs`: files, seek and advice, and the laws of their results.
- `src/slice.rs`: bounds-checked slice indexing, equality and iteration.
- `src/dense.rs`: an in-place hash-map bucket.

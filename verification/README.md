# starry_api

The system-call layer of a small Unix-like kernel for riscv64, written in
Verus: the decisions the layer takes, stated in `requires` / `ensures` and
proved by Verus.

The library works on plain values (the descriptor table, the resource
limits, the registers of a trapped call). Reading and writing user memory,
opening and inspecting files and looking processes up are not part of it:
the functions that need their results take them as arguments, and
`serve::serve_syscall` hands back the requests that need them.

Modules under `src/`:

- `abi` – the Linux ABI numbers the layer interprets.
- `errno` – the errors of the layer and their Linux error numbers.
- `open` – conversion of `open(2)` flags into file-system open options.
- `fd_table` – the descriptor table and the open file descriptions it refers to.
- `fd_ops` – `openat`, `close`, `fcntl` and directory-descriptor resolution.
- `stat` – which file `fstat` / `fstatat` read.
- `resources` – resource limits and `prlimit64`.
- `thread` – `set_tid_address` and `set_robust_list`.
- `syscall` – decoding a trapped system call and encoding its result.
- `serve` – serving a trapped call: decoding it, running the handlers that need
  nothing from outside, and encoding their result.
- `cmdline` – the command line of the first user process.
- `laws` – properties that relate several calls, proved once for all inputs.

`tests/` runs the library on concrete values and checks the ABI numbers
against `linux-raw-sys`, `axerrno` and `axfs-ng-vfs`.

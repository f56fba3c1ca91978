# astrashell

A rootless Linux runtime for Android. The library (`src/`) holds the
runtime's decisions with their specifications, proved with Verus:

- `lib.rs`: the configuration and its defaults, the runtime handle.
- `engine/`: the engines, the choice among them, their start steps and the
  environment of the commands they run, how a start sequence proceeds;
  the microVM configuration.
- `syscall/`: the broker's mount allowlist and answers, the seccomp
  notification answers, syscall number translation.
- `security/`: the standard BPF filter, the emulated root capabilities
  and the capabilities to drop from the bounding set.
- `namespace/`: how `unshare` and `pivot_root` outcomes are judged, the
  mounts that prepare a root, the user namespace ID mappings.
- `fs/`, `container/`: overlay and snapshot layout, image formats, OCI
  image references, the image store and the runtime spec.
- `ipc/`, `net/`, `gui/`, `platform/`, `util/`: the IPC subscriptions,
  networking arguments, display paths, Android facts, kernel feature
  probes, ELF analysis and path expansion.
- `text.rs`, `errno.rs`: string operations with their specifications, and
  the C library's error numbers.

`app/` is the daemon around the library: command line, configuration
file, system calls, files, sockets and the asynchronous plumbing. It
performs what the library plans and hands the raw outcomes back to it.

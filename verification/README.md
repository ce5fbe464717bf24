# gateflow

`gateflow` runs test code inside a real, unprivileged Linux network
namespace: real kernel namespaces, real sockets, real `tc netem` chaos on
the sandbox's loopback, real veth pairs between two sandboxes, and opt-in
cgroup v2 limits and a seccomp-BPF profile.

## Layout

- `src/` — the verified library (Verus). It decides everything the sandbox
  does, and proves it:
  - `sandbox.rs`: the `Sandbox`/`PairedSandbox` builders, the entry route
    and the child's setup steps;
  - `netns.rs`: the `/proc/self/{setgroups,uid_map,gid_map}` writes and the
    sandbox child's setup protocol with its sentinel exit codes;
  - `veth.rs`: the addressing of a veth link, each side's setup plan, the
    two-process handshake (a closure runs only after both ends are up, B is
    reaped only after A's closure returned), the exit-code relay and the
    completion-signal wait;
  - `hardening.rs`: cgroup v2 limits and the exact leaf directory and
    control-file writes they turn into;
  - `seccomp.rs`: the seccomp-BPF program, a model of how a kernel of
    either byte order runs it, and the proof of its answer to every
    syscall: `EPERM` for every syscall through a foreign ABI (another
    `AUDIT_ARCH` where the architecture is known, or the other side of the
    x32 bit: a 32-bit program cannot run inside an x86-64 sandbox) and for
    the namespace-changing and kernel-control syscalls, `ENOSYS` for
    `clone3` (so threads fall back to `clone`), `ALLOW` otherwise;
  - `isolated_net.rs`: the `#[isolated_net(...)]` chaos parameters;
  - `cli.rs`: the `gateflow` CLI's command selection and `doctor` report;
  - `text.rs`: decimal rendering, path joining, string comparison.
- `app/` — the side effects around it: `fork(2)`, `unshare(2)`, pipes,
  file writes, netlink requests through `nlink`, the seccomp syscalls,
  token generation with `syn`/`quote`, and the CLI's `main`.
- `tests/` — tests of the library on concrete values.

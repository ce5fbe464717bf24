//! `gateflow` isolates test code inside a real, unprivileged Linux network
//! namespace. This crate holds the verified decision logic: the sandbox
//! builders and their setup plans, the child and paired-namespace setup
//! protocols with their sentinel exit codes, the cgroup v2 limit plan, the
//! seccomp-BPF filter together with a proof of its answer to every syscall
//! (native and foreign ABIs alike), and the argument handling of the
//! `isolated_net` attribute and the `gateflow` CLI.

pub mod text;
pub mod seccomp;
pub mod hardening;
pub mod netns;
pub mod veth;
pub mod isolated_net;
pub mod sandbox;
mod outside;
pub mod cli;

pub use hardening::CgroupLimits;
pub use sandbox::{PairedSandbox, Sandbox};
pub use seccomp::SeccompProfile;

//! The built-in seccomp-BPF profile: the classic-BPF program that
//! [`SeccompProfile::deny_namespace_changes`] installs, and a model of how
//! the kernel runs such a program, against which the program's decision is
//! proved for every syscall: a syscall made through any ABI other than the
//! process's native one (another `AUDIT_ARCH`, or x32 on x86-64) fails with
//! `EPERM`; so do the namespace-changing and kernel-control syscalls and a
//! namespace-bearing `clone`; `clone3` fails with `ENOSYS`, so that the C
//! library falls back to `clone` and threads keep working; everything else
//! is allowed.

use vstd::prelude::*;
use crate::text::str_eq;

verus! {

/// `BPF_LD` instruction class.
pub const BPF_LD: u16 = 0x00;
/// 32-bit word size for loads.
pub const BPF_W: u16 = 0x00;
/// Absolute-offset addressing into `seccomp_data`.
pub const BPF_ABS: u16 = 0x20;
/// `BPF_JMP` instruction class.
pub const BPF_JMP: u16 = 0x05;
/// Jump if the accumulator equals `k`.
pub const BPF_JEQ: u16 = 0x10;
/// Jump if the accumulator has any bit of `k` set.
pub const BPF_JSET: u16 = 0x40;
/// The operand is the constant `k`.
pub const BPF_K: u16 = 0x00;
/// `BPF_RET` instruction class.
pub const BPF_RET: u16 = 0x06;
/// Seccomp action: fail the syscall with the errno in the low 16 bits.
pub const SECCOMP_RET_ERRNO: u32 = 0x0005_0000;
/// Seccomp action: let the syscall through.
pub const SECCOMP_RET_ALLOW: u32 = 0x7fff_0000;
/// Every `CLONE_NEW*` flag that `clone(2)` accepts.
pub const CLONE_NEW_MASK: u32 = 0x7e02_0000;

/// Opcode of "load the 32-bit word at absolute offset `k`".
pub const OP_LOAD_ABS: u16 = 0x20;
/// Opcode of "jump if equal to `k`".
pub const OP_JEQ: u16 = 0x15;
/// Opcode of "jump if any bit of `k` is set".
pub const OP_JSET: u16 = 0x45;
/// Opcode of "return `k`".
pub const OP_RET: u16 = 0x06;

/// The opcodes above are the bitwise combinations the kernel headers define.
pub proof fn lemma_opcodes()
    ensures
        BPF_LD | BPF_W | BPF_ABS == OP_LOAD_ABS,
        BPF_JMP | BPF_JEQ | BPF_K == OP_JEQ,
        BPF_JMP | BPF_JSET | BPF_K == OP_JSET,
        BPF_RET | BPF_K == OP_RET,
{
    assert(0x00u16 | 0x00u16 | 0x20u16 == 0x20u16) by (bit_vector);
    assert(0x05u16 | 0x10u16 | 0x00u16 == 0x15u16) by (bit_vector);
    assert(0x05u16 | 0x40u16 | 0x00u16 == 0x45u16) by (bit_vector);
    assert(0x06u16 | 0x00u16 == 0x06u16) by (bit_vector);
}

/// One classic-BPF instruction, laid out as the kernel's `struct sock_filter`.
#[derive(Clone, Copy, Debug, PartialEq, Eq, Structural)]
pub struct SockFilter {
    /// Opcode.
    pub code: u16,
    /// Instructions to skip when a conditional jump is taken.
    pub jt: u8,
    /// Instructions to skip when a conditional jump is not taken.
    pub jf: u8,
    /// Constant operand.
    pub k: u32,
}

/// A non-jumping instruction.
pub fn stmt(code: u16, k: u32) -> (r: SockFilter)
    ensures
        r == (SockFilter { code, jt: 0, jf: 0, k }),
{
    SockFilter { code, jt: 0, jf: 0, k }
}

/// The instruction with the given fields.
pub open spec fn jump_spec(code: u16, k: u32, jt: u8, jf: u8) -> SockFilter {
    SockFilter { code, jt, jf, k }
}

/// A conditional jump instruction.
pub fn jump(code: u16, k: u32, jt: u8, jf: u8) -> (r: SockFilter)
    ensures
        r == (SockFilter { code, jt, jf, k }),
{
    SockFilter { code, jt, jf, k }
}

/// The syscall numbers and the errno that the profile is built from. They
/// differ between architectures, so they are a parameter of the program.
#[derive(Clone, Copy, Debug)]
pub struct SyscallNumbers {
    /// `unshare(2)`.
    pub unshare: u32,
    /// `setns(2)`.
    pub setns: u32,
    /// `mount(2)`.
    pub mount: u32,
    /// `umount2(2)`.
    pub umount2: u32,
    /// `pivot_root(2)`.
    pub pivot_root: u32,
    /// `ptrace(2)`.
    pub ptrace: u32,
    /// `bpf(2)`.
    pub bpf: u32,
    /// `reboot(2)`.
    pub reboot: u32,
    /// `clone3(2)`.
    pub clone3: u32,
    /// `clone(2)`.
    pub clone: u32,
    /// `EPERM`.
    pub eperm: u32,
    /// `ENOSYS`.
    pub enosys: u32,
}

impl SyscallNumbers {
    /// The syscalls denied outright, in the order the program tests them.
    pub open spec fn denied(self) -> Seq<u32> {
        seq![self.unshare, self.setns, self.mount, self.umount2, self.pivot_root, self.ptrace, self.bpf, self.reboot]
    }

    /// What a denied syscall returns: `EPERM` as its errno.
    pub open spec fn deny_value(self) -> u32 {
        SECCOMP_RET_ERRNO | self.eperm
    }

    /// What `clone3` returns: `ENOSYS`, on which the C library retries
    /// with `clone`.
    pub open spec fn enosys_value(self) -> u32 {
        SECCOMP_RET_ERRNO | self.enosys
    }
}


/// The syscall ABI and byte order of the process the profile is installed
/// in.
#[derive(Clone, Copy, Debug, PartialEq, Eq)]
pub struct TargetArch {
    /// The `AUDIT_ARCH_*` value the kernel reports for native syscalls, or
    /// `None` for an architecture whose value the profile does not know
    /// (then no ABI is refused by its `AUDIT_ARCH`).
    pub audit_arch: Option<u32>,
    /// The syscall-number bit that tells apart two ABIs sharing that
    /// `AUDIT_ARCH` (x32 on x86-64), or `0` where there is none.
    pub x32_bit: u32,
    /// The machine is little-endian.
    pub little_endian: bool,
}

/// The ELF machine number, the word size, and the second-ABI syscall bit
/// (x32's on x86-64) of a Rust `target_arch` name, for the architectures
/// whose `AUDIT_ARCH` is fixed by the first two and the byte order.
pub open spec fn machine_of(name: Seq<char>) -> Option<(u32, bool, u32)> {
    if name == "x86"@ {
        Some((3u32, false, 0u32))
    } else if name == "x86_64"@ {
        Some((62u32, true, 0x4000_0000u32))
    } else if name == "arm"@ {
        Some((40u32, false, 0u32))
    } else if name == "aarch64"@ {
        Some((183u32, true, 0u32))
    } else if name == "riscv32"@ {
        Some((243u32, false, 0u32))
    } else if name == "riscv64"@ {
        Some((243u32, true, 0u32))
    } else if name == "powerpc"@ {
        Some((20u32, false, 0u32))
    } else if name == "powerpc64"@ {
        Some((21u32, true, 0u32))
    } else if name == "s390x"@ {
        Some((22u32, true, 0u32))
    } else if name == "loongarch64"@ {
        Some((258u32, true, 0u32))
    } else {
        None
    }
}

/// `AUDIT_ARCH_*` as `<linux/audit.h>` builds it: the ELF machine, with
/// `__AUDIT_ARCH_64BIT` for 64-bit and `__AUDIT_ARCH_LE` for little-endian.
pub open spec fn audit_arch(machine: u32, is64: bool, little_endian: bool) -> u32 {
    (machine + (if is64 { 0x8000_0000u32 } else { 0u32 }) + (if little_endian { 0x4000_0000u32 } else { 0u32 })) as u32
}

/// The ABI of a target named `name` (Rust's `target_arch`) with the given
/// byte order: its `AUDIT_ARCH` and second-ABI bit where the profile knows
/// the architecture, neither where it does not.
pub open spec fn target_arch_spec(name: Seq<char>, little_endian: bool) -> TargetArch {
    match machine_of(name) {
        Some((m, is64, x32)) => TargetArch {
            audit_arch: Some(audit_arch(m, is64, little_endian)),
            x32_bit: x32,
            little_endian,
        },
        None => TargetArch { audit_arch: None, x32_bit: 0, little_endian },
    }
}

/// The ABI of the target named `name` (Rust's `target_arch`) with the given
/// byte order.
pub fn target_arch(name: &str, little_endian: bool) -> (r: TargetArch)
    ensures
        r == target_arch_spec(name@, little_endian),
{
    let le: u32 = if little_endian { 0x4000_0000 } else { 0 };
    let known: Option<(u32, u32)> = if str_eq(name, "x86") {
        Some((3 + le, 0))
    } else if str_eq(name, "x86_64") {
        Some((62 + 0x8000_0000 + le, 0x4000_0000))
    } else if str_eq(name, "arm") {
        Some((40 + le, 0))
    } else if str_eq(name, "aarch64") {
        Some((183 + 0x8000_0000 + le, 0))
    } else if str_eq(name, "riscv32") {
        Some((243 + le, 0))
    } else if str_eq(name, "riscv64") {
        Some((243 + 0x8000_0000 + le, 0))
    } else if str_eq(name, "powerpc") {
        Some((20 + le, 0))
    } else if str_eq(name, "powerpc64") {
        Some((21 + 0x8000_0000 + le, 0))
    } else if str_eq(name, "s390x") {
        Some((22 + 0x8000_0000 + le, 0))
    } else if str_eq(name, "loongarch64") {
        Some((258 + 0x8000_0000 + le, 0))
    } else {
        None
    };
    match known {
        Some((arch, x32)) => TargetArch { audit_arch: Some(arch), x32_bit: x32, little_endian },
        None => TargetArch { audit_arch: None, x32_bit: 0, little_endian },
    }
}

/// The `AUDIT_ARCH` of each known target is its ELF machine number
/// (`EM_386` 3, `EM_ARM` 40, `EM_RISCV` 243, `EM_PPC` 20, `EM_X86_64` 62,
/// `EM_AARCH64` 183, `EM_PPC64` 21, `EM_S390` 22, `EM_LOONGARCH` 258),
/// with `__AUDIT_ARCH_64BIT` (`0x8000_0000`) exactly on the targets whose
/// pointers are 64 bits wide and `__AUDIT_ARCH_LE` (`0x4000_0000`) exactly
/// on a little-endian machine; only x86-64 has a second-ABI bit (x32's
/// `0x4000_0000`); and a name outside these ten has no `AUDIT_ARCH`.
pub proof fn lemma_audit_arch_of_targets(name: Seq<char>, little_endian: bool)
    ensures
        ({
            let le: u32 = if little_endian { 0x4000_0000u32 } else { 0u32 };
            let a = target_arch_spec(name, little_endian);
            &&& name == "x86"@ ==> a.audit_arch == Some((3u32 + le) as u32)
            &&& name == "arm"@ ==> a.audit_arch == Some((40u32 + le) as u32)
            &&& name == "riscv32"@ ==> a.audit_arch == Some((243u32 + le) as u32)
            &&& name == "powerpc"@ ==> a.audit_arch == Some((20u32 + le) as u32)
            &&& name == "x86_64"@ ==> a.audit_arch == Some((0x8000_003Eu32 + le) as u32)
            &&& name == "aarch64"@ ==> a.audit_arch == Some((0x8000_00B7u32 + le) as u32)
            &&& name == "riscv64"@ ==> a.audit_arch == Some((0x8000_00F3u32 + le) as u32)
            &&& name == "powerpc64"@ ==> a.audit_arch == Some((0x8000_0015u32 + le) as u32)
            &&& name == "s390x"@ ==> a.audit_arch == Some((0x8000_0016u32 + le) as u32)
            &&& name == "loongarch64"@ ==> a.audit_arch == Some((0x8000_0102u32 + le) as u32)
            &&& a.x32_bit == (if name == "x86_64"@ { 0x4000_0000u32 } else { 0u32 })
            &&& a.little_endian == little_endian
            &&& (a.audit_arch is None <==> !(name == "x86"@ || name == "arm"@
                || name == "riscv32"@ || name == "powerpc"@ || name == "x86_64"@
                || name == "aarch64"@ || name == "riscv64"@ || name == "powerpc64"@
                || name == "s390x"@ || name == "loongarch64"@))
        }),
        ({
            let a = target_arch_spec(name, little_endian);
            a.audit_arch matches Some(x) ==> ((x & 0x8000_0000u32 != 0) <==> (name == "x86_64"@
                || name == "aarch64"@ || name == "riscv64"@ || name == "powerpc64"@
                || name == "s390x"@ || name == "loongarch64"@))
        }),
        ({
            let a = target_arch_spec(name, little_endian);
            a.audit_arch matches Some(x) ==> ((x & 0x4000_0000u32 != 0) == little_endian)
        }),
{
    reveal_strlit("x86");
    reveal_strlit("x86_64");
    reveal_strlit("arm");
    reveal_strlit("aarch64");
    reveal_strlit("riscv32");
    reveal_strlit("riscv64");
    reveal_strlit("powerpc");
    reveal_strlit("powerpc64");
    reveal_strlit("s390x");
    reveal_strlit("loongarch64");
    assert("x86"@.len() != "x86_64"@.len());
    assert("x86"@[0] != "arm"@[0]);
    assert("x86"@.len() != "aarch64"@.len());
    assert("x86"@.len() != "riscv32"@.len());
    assert("x86"@.len() != "riscv64"@.len());
    assert("x86"@.len() != "powerpc"@.len());
    assert("x86"@.len() != "powerpc64"@.len());
    assert("x86"@.len() != "s390x"@.len());
    assert("x86"@.len() != "loongarch64"@.len());
    assert("x86_64"@.len() != "arm"@.len());
    assert("x86_64"@.len() != "aarch64"@.len());
    assert("x86_64"@.len() != "riscv32"@.len());
    assert("x86_64"@.len() != "riscv64"@.len());
    assert("x86_64"@.len() != "powerpc"@.len());
    assert("x86_64"@.len() != "powerpc64"@.len());
    assert("x86_64"@.len() != "s390x"@.len());
    assert("x86_64"@.len() != "loongarch64"@.len());
    assert("arm"@.len() != "aarch64"@.len());
    assert("arm"@.len() != "riscv32"@.len());
    assert("arm"@.len() != "riscv64"@.len());
    assert("arm"@.len() != "powerpc"@.len());
    assert("arm"@.len() != "powerpc64"@.len());
    assert("arm"@.len() != "s390x"@.len());
    assert("arm"@.len() != "loongarch64"@.len());
    assert("aarch64"@[0] != "riscv32"@[0]);
    assert("aarch64"@[0] != "riscv64"@[0]);
    assert("aarch64"@[0] != "powerpc"@[0]);
    assert("aarch64"@.len() != "powerpc64"@.len());
    assert("aarch64"@.len() != "s390x"@.len());
    assert("aarch64"@.len() != "loongarch64"@.len());
    assert("riscv32"@[5] != "riscv64"@[5]);
    assert("riscv32"@[0] != "powerpc"@[0]);
    assert("riscv32"@.len() != "powerpc64"@.len());
    assert("riscv32"@.len() != "s390x"@.len());
    assert("riscv32"@.len() != "loongarch64"@.len());
    assert("riscv64"@[0] != "powerpc"@[0]);
    assert("riscv64"@.len() != "powerpc64"@.len());
    assert("riscv64"@.len() != "s390x"@.len());
    assert("riscv64"@.len() != "loongarch64"@.len());
    assert("powerpc"@.len() != "powerpc64"@.len());
    assert("powerpc"@.len() != "s390x"@.len());
    assert("powerpc"@.len() != "loongarch64"@.len());
    assert("powerpc64"@.len() != "s390x"@.len());
    assert("powerpc64"@.len() != "loongarch64"@.len());
    assert("s390x"@.len() != "loongarch64"@.len());
    let le: u32 = if little_endian { 0x4000_0000u32 } else { 0u32 };
    assert(((3u32 + le) as u32) & 0x8000_0000u32 == 0 && (((3u32 + le) as u32) & 0x4000_0000u32 != 0) == little_endian) by (bit_vector)
        requires le == (if little_endian { 0x4000_0000u32 } else { 0u32 });
    assert(((40u32 + le) as u32) & 0x8000_0000u32 == 0 && (((40u32 + le) as u32) & 0x4000_0000u32 != 0) == little_endian) by (bit_vector)
        requires le == (if little_endian { 0x4000_0000u32 } else { 0u32 });
    assert(((243u32 + le) as u32) & 0x8000_0000u32 == 0 && (((243u32 + le) as u32) & 0x4000_0000u32 != 0) == little_endian) by (bit_vector)
        requires le == (if little_endian { 0x4000_0000u32 } else { 0u32 });
    assert(((20u32 + le) as u32) & 0x8000_0000u32 == 0 && (((20u32 + le) as u32) & 0x4000_0000u32 != 0) == little_endian) by (bit_vector)
        requires le == (if little_endian { 0x4000_0000u32 } else { 0u32 });
    assert(((0x8000_003Eu32 + le) as u32) & 0x8000_0000u32 != 0 && (((0x8000_003Eu32 + le) as u32) & 0x4000_0000u32 != 0) == little_endian) by (bit_vector)
        requires le == (if little_endian { 0x4000_0000u32 } else { 0u32 });
    assert(((0x8000_00B7u32 + le) as u32) & 0x8000_0000u32 != 0 && (((0x8000_00B7u32 + le) as u32) & 0x4000_0000u32 != 0) == little_endian) by (bit_vector)
        requires le == (if little_endian { 0x4000_0000u32 } else { 0u32 });
    assert(((0x8000_00F3u32 + le) as u32) & 0x8000_0000u32 != 0 && (((0x8000_00F3u32 + le) as u32) & 0x4000_0000u32 != 0) == little_endian) by (bit_vector)
        requires le == (if little_endian { 0x4000_0000u32 } else { 0u32 });
    assert(((0x8000_0015u32 + le) as u32) & 0x8000_0000u32 != 0 && (((0x8000_0015u32 + le) as u32) & 0x4000_0000u32 != 0) == little_endian) by (bit_vector)
        requires le == (if little_endian { 0x4000_0000u32 } else { 0u32 });
    assert(((0x8000_0016u32 + le) as u32) & 0x8000_0000u32 != 0 && (((0x8000_0016u32 + le) as u32) & 0x4000_0000u32 != 0) == little_endian) by (bit_vector)
        requires le == (if little_endian { 0x4000_0000u32 } else { 0u32 });
    assert(((0x8000_0102u32 + le) as u32) & 0x8000_0000u32 != 0 && (((0x8000_0102u32 + le) as u32) & 0x4000_0000u32 != 0) == little_endian) by (bit_vector)
        requires le == (if little_endian { 0x4000_0000u32 } else { 0u32 });
}

/// What holds of the syscall numbers and errno on every Linux target:
/// `EPERM` is 1, and `clone` and `clone3` are two different syscalls, none
/// of the eight the profile denies outright.
pub open spec fn numbers_sound(t: SyscallNumbers) -> bool {
    &&& t.eperm == 1
    &&& t.clone != t.clone3
    &&& !t.denied().contains(t.clone)
    &&& !t.denied().contains(t.clone3)
}

/// The numbers of the machine this process runs on: the `SYS_*` syscall
/// numbers, `EPERM` and `ENOSYS` that `nix::libc` defines for the build
/// target. What is stated of them holds on every Linux target `libc`
/// defines them for: `EPERM` is 1, and the ten syscall numbers are those of
/// ten different syscalls (so `clone` and `clone3` differ from each other
/// and from the eight denied ones). Their values are the target's own.
#[verifier::external_body]
fn host_syscall_numbers() -> (r: SyscallNumbers)
    ensures
        numbers_sound(r),
{
    SyscallNumbers {
        unshare: nix::libc::SYS_unshare as u32,
        setns: nix::libc::SYS_setns as u32,
        mount: nix::libc::SYS_mount as u32,
        umount2: nix::libc::SYS_umount2 as u32,
        pivot_root: nix::libc::SYS_pivot_root as u32,
        ptrace: nix::libc::SYS_ptrace as u32,
        bpf: nix::libc::SYS_bpf as u32,
        reboot: nix::libc::SYS_reboot as u32,
        clone3: nix::libc::SYS_clone3 as u32,
        clone: nix::libc::SYS_clone as u32,
        eperm: nix::libc::EPERM as u32,
        enosys: nix::libc::ENOSYS as u32,
    }
}

/// Number of instructions in the profile's program.
pub open spec fn filter_len() -> nat {
    29
}

/// Whether the process's own syscall numbers carry the second-ABI bit
/// (the process itself is an x32 one).
pub open spec fn native_x32(t: SyscallNumbers, a: TargetArch) -> bool {
    t.clone & a.x32_bit != 0
}

/// The offset in `seccomp_data` of the low 32 bits of the first syscall
/// argument: right at the start of `args[0]` on a little-endian machine,
/// four bytes in on a big-endian one.
pub open spec fn arg0_low_offset(a: TargetArch) -> u32 {
    if a.little_endian { 16 } else { 20 }
}

/// The `i`-th instruction of the profile's program: load the ABI and deny
/// any but the native one (where it is known); load the syscall number and
/// deny it when its second-ABI bit differs from the process's own; for each
/// outright-denied syscall, compare and return `EPERM` on a match; answer
/// `clone3` with `ENOSYS`; for `clone`, load the low word of its flags
/// argument and return `EPERM` if any `CLONE_NEW*` bit is set; otherwise
/// allow.
pub open spec fn filter_instr(t: SyscallNumbers, a: TargetArch, i: int) -> SockFilter {
    let deny = SockFilter { code: OP_RET, jt: 0, jf: 0, k: t.deny_value() };
    if i == 0 {
        SockFilter { code: OP_LOAD_ABS, jt: 0, jf: 0, k: 4 }
    } else if i == 1 {
        match a.audit_arch {
            Some(x) => SockFilter { code: OP_JEQ, jt: 1, jf: 0, k: x },
            None => SockFilter { code: OP_JEQ, jt: 1, jf: 1, k: 0 },
        }
    } else if i == 2 {
        deny
    } else if i == 3 {
        SockFilter { code: OP_LOAD_ABS, jt: 0, jf: 0, k: 0 }
    } else if i == 4 {
        if native_x32(t, a) {
            SockFilter { code: OP_JSET, jt: 1, jf: 0, k: a.x32_bit }
        } else {
            SockFilter { code: OP_JSET, jt: 0, jf: 1, k: a.x32_bit }
        }
    } else if i == 5 {
        deny
    } else if i < 22 {
        if (i - 6) % 2 == 0 {
            SockFilter { code: OP_JEQ, jt: 0, jf: 1, k: t.denied()[(i - 6) / 2] }
        } else {
            deny
        }
    } else if i == 22 {
        SockFilter { code: OP_JEQ, jt: 0, jf: 1, k: t.clone3 }
    } else if i == 23 {
        SockFilter { code: OP_RET, jt: 0, jf: 0, k: t.enosys_value() }
    } else if i == 24 {
        SockFilter { code: OP_JEQ, jt: 0, jf: 3, k: t.clone }
    } else if i == 25 {
        SockFilter { code: OP_LOAD_ABS, jt: 0, jf: 0, k: arg0_low_offset(a) }
    } else if i == 26 {
        SockFilter { code: OP_JSET, jt: 0, jf: 1, k: CLONE_NEW_MASK }
    } else if i == 27 {
        deny
    } else {
        SockFilter { code: OP_RET, jt: 0, jf: 0, k: SECCOMP_RET_ALLOW }
    }
}

/// The profile's whole program.
pub open spec fn filter_spec(t: SyscallNumbers, a: TargetArch) -> Seq<SockFilter> {
    Seq::new(filter_len(), |i: int| filter_instr(t, a, i))
}

/// What the kernel hands a seccomp filter about one syscall
/// (`struct seccomp_data`).
#[derive(Clone, Copy, Debug)]
pub struct SeccompData {
    /// The syscall number.
    pub nr: u32,
    /// The `AUDIT_ARCH_*` value.
    pub arch: u32,
    /// The instruction pointer at the syscall.
    pub instruction_pointer: u64,
    /// The six syscall arguments.
    pub args: [u64; 6],
}

/// The low 32 bits of a 64-bit value.
pub open spec fn low_word(x: u64) -> u32 {
    (x % 0x1_0000_0000) as u32
}

/// The high 32 bits of a 64-bit value.
pub open spec fn high_word(x: u64) -> u32 {
    (x / 0x1_0000_0000) as u32
}

/// Half of the 64-bit field `x` as the word at its byte offset `0`
/// (`second == false`) or `4` (`second == true`), in the given byte order.
pub open spec fn half_word(x: u64, second: bool, little_endian: bool) -> u32 {
    if second == little_endian { high_word(x) } else { low_word(x) }
}

/// The 32-bit word at byte offset `off` of `seccomp_data` in the given byte
/// order; `None` where no aligned word starts.
pub open spec fn data_word(d: SeccompData, off: u32, little_endian: bool) -> Option<u32> {
    if off == 0 {
        Some(d.nr)
    } else if off == 4 {
        Some(d.arch)
    } else if off == 8 || off == 12 {
        Some(half_word(d.instruction_pointer, off == 12, little_endian))
    } else if 16 <= off < 64 && (off - 16) % 4 == 0 {
        Some(half_word(d.args@[(off - 16) / 8], (off - 16) % 8 == 4, little_endian))
    } else {
        None
    }
}

/// The result of running `prog` from instruction `pc` with accumulator
/// `acc` on `d`, as a kernel of the given byte order runs the instructions
/// this profile uses: the value of the `RET` reached, or `None` for a load
/// outside `seccomp_data`, an unknown opcode, or running off the end.
pub open spec fn bpf_run(prog: Seq<SockFilter>, d: SeccompData, le: bool, pc: nat, acc: u32) -> Option<u32>
    decreases prog.len() - pc,
{
    if pc >= prog.len() {
        None
    } else {
        let ins = prog[pc as int];
        if ins.code == OP_LOAD_ABS {
            match data_word(d, ins.k, le) {
                Some(w) => bpf_run(prog, d, le, pc + 1, w),
                None => None,
            }
        } else if ins.code == OP_JEQ {
            let skip: nat = if acc == ins.k { ins.jt as nat } else { ins.jf as nat };
            if pc + 1 + skip > prog.len() {
                None
            } else {
                bpf_run(prog, d, le, pc + 1 + skip, acc)
            }
        } else if ins.code == OP_JSET {
            let skip: nat = if acc & ins.k != 0 { ins.jt as nat } else { ins.jf as nat };
            if pc + 1 + skip > prog.len() {
                None
            } else {
                bpf_run(prog, d, le, pc + 1 + skip, acc)
            }
        } else if ins.code == OP_RET {
            Some(ins.k)
        } else {
            None
        }
    }
}

/// Whether `d` comes through the process's own ABI: its `AUDIT_ARCH` (where
/// known) and its second-ABI bit agree with the process's.
pub open spec fn native_abi(t: SyscallNumbers, a: TargetArch, d: SeccompData) -> bool {
    &&& (a.audit_arch matches Some(x) ==> d.arch == x)
    &&& (d.nr & a.x32_bit != 0) == native_x32(t, a)
}

/// What the profile answers a syscall described by `d`, made by a process
/// whose numbers are `t` and whose ABI is `a`: `EPERM` for every syscall
/// through a foreign ABI — another `AUDIT_ARCH`, or the other side of the
/// x32 bit (the profile knows no foreign ABI's numbers, so it cannot let
/// any of them through selectively) —, for the outright-denied syscalls and
/// for a `clone` whose flags carry a `CLONE_NEW*` bit; `ENOSYS` for
/// `clone3`, whose flags live behind a pointer the filter cannot read (the
/// C library then falls back to `clone`); `ALLOW` for everything else.
pub open spec fn profile_action(t: SyscallNumbers, a: TargetArch, d: SeccompData) -> u32 {
    if !native_abi(t, a, d) {
        t.deny_value()
    } else if t.denied().contains(d.nr) {
        t.deny_value()
    } else if d.nr == t.clone3 {
        t.enosys_value()
    } else if d.nr == t.clone && low_word(d.args@[0]) & CLONE_NEW_MASK != 0 {
        t.deny_value()
    } else {
        SECCOMP_RET_ALLOW
    }
}

/// From the `j`-th outright-denied comparison on, the program denies a
/// syscall among the remaining ones and otherwise goes on at `clone3`.
proof fn lemma_denied_blocks(t: SyscallNumbers, a: TargetArch, d: SeccompData, j: nat)
    requires
        j <= 8,
    ensures
        bpf_run(filter_spec(t, a), d, a.little_endian, (6 + 2 * j) as nat, d.nr) == if t.denied().subrange(j as int, 8).contains(d.nr) {
            Some(t.deny_value())
        } else {
            bpf_run(filter_spec(t, a), d, a.little_endian, 22, d.nr)
        },
    decreases 8 - j,
{
    let prog = filter_spec(t, a);
    let le = a.little_endian;
    let rest = t.denied().subrange(j as int, 8);
    if j == 8 {
        assert(rest =~= Seq::<u32>::empty());
    } else {
        lemma_denied_blocks(t, a, d, j + 1);
        let pc = (6 + 2 * j) as nat;
        assert(prog[pc as int] == filter_instr(t, a, pc as int));
        assert(prog[pc as int + 1] == filter_instr(t, a, pc as int + 1));
        assert(((pc - 6) as int) % 2 == 0);
        assert((pc as int - 6) / 2 == j);
        assert(rest =~= seq![t.denied()[j as int]] + t.denied().subrange(j as int + 1, 8));
        if t.denied()[j as int] == d.nr {
            assert(rest[0] == d.nr);
            assert(bpf_run(prog, d, le, pc + 1, d.nr) == Some(t.deny_value()));
        } else {
            assert(rest.contains(d.nr) == t.denied().subrange(j as int + 1, 8).contains(d.nr)) by {
                if rest.contains(d.nr) {
                    let k = choose|k: int| 0 <= k < rest.len() && rest[k] == d.nr;
                    assert(t.denied().subrange(j as int + 1, 8)[k - 1] == d.nr);
                }
                let tail = t.denied().subrange(j as int + 1, 8);
                if tail.contains(d.nr) {
                    let k = choose|k: int| 0 <= k < tail.len() && tail[k] == d.nr;
                    assert(rest[k + 1] == d.nr);
                }
            }
        }
    }
}

/// Law: on every `seccomp_data`, the profile's program, run by a kernel of
/// the process's byte order, returns exactly [`profile_action`]:
/// foreign-ABI syscalls, the namespace-changing and kernel-control
/// syscalls and namespace-bearing `clone` fail with `EPERM`, `clone3` fails
/// with `ENOSYS`, and every other native syscall — thread- and
/// subprocess-creating `clone` without namespace flags included — is
/// allowed.
pub proof fn lemma_filter_decision(t: SyscallNumbers, a: TargetArch, d: SeccompData)
    ensures
        bpf_run(filter_spec(t, a), d, a.little_endian, 0, 0) == Some(profile_action(t, a, d)),
{
    let prog = filter_spec(t, a);
    let le = a.little_endian;
    assert(prog.len() == 29);
    assert(prog[0] == filter_instr(t, a, 0));
    assert(prog[1] == filter_instr(t, a, 1));
    assert(prog[2] == filter_instr(t, a, 2));
    assert(prog[3] == filter_instr(t, a, 3));
    assert(prog[4] == filter_instr(t, a, 4));
    assert(prog[5] == filter_instr(t, a, 5));
    assert(data_word(d, 4, le) == Some(d.arch));
    assert(data_word(d, 0, le) == Some(d.nr));
    assert(bpf_run(prog, d, le, 2, d.arch) == Some(t.deny_value()));
    assert(bpf_run(prog, d, le, 5, d.nr) == Some(t.deny_value()));
    assert(bpf_run(prog, d, le, 4, d.nr) == if (d.nr & a.x32_bit != 0) != native_x32(t, a) {
        Some(t.deny_value())
    } else {
        bpf_run(prog, d, le, 6, d.nr)
    });
    assert(bpf_run(prog, d, le, 3, d.arch) == bpf_run(prog, d, le, 4, d.nr));
    assert(bpf_run(prog, d, le, 1, d.arch) == if a.audit_arch matches Some(x) && d.arch != x {
        bpf_run(prog, d, le, 2, d.arch)
    } else {
        bpf_run(prog, d, le, 3, d.arch)
    });
    assert(bpf_run(prog, d, le, 0, 0) == bpf_run(prog, d, le, 1, d.arch));
    lemma_denied_blocks(t, a, d, 0);
    assert(t.denied().subrange(0, 8) =~= t.denied());
    assert(prog[22] == filter_instr(t, a, 22));
    assert(prog[23] == filter_instr(t, a, 23));
    assert(prog[24] == filter_instr(t, a, 24));
    assert(prog[25] == filter_instr(t, a, 25));
    assert(prog[26] == filter_instr(t, a, 26));
    assert(prog[27] == filter_instr(t, a, 27));
    assert(prog[28] == filter_instr(t, a, 28));
    let off = arg0_low_offset(a);
    assert(data_word(d, off, le) == Some(low_word(d.args@[0])));
    let a0 = low_word(d.args@[0]);
    assert(bpf_run(prog, d, le, 28, a0) == Some(SECCOMP_RET_ALLOW));
    assert(bpf_run(prog, d, le, 27, a0) == Some(t.deny_value()));
    assert(bpf_run(prog, d, le, 26, a0) == if a0 & CLONE_NEW_MASK != 0 {
        Some(t.deny_value())
    } else {
        Some(SECCOMP_RET_ALLOW)
    });
    assert(bpf_run(prog, d, le, 25, d.nr) == bpf_run(prog, d, le, 26, a0));
    assert(bpf_run(prog, d, le, 28, d.nr) == Some(SECCOMP_RET_ALLOW));
    assert(bpf_run(prog, d, le, 23, d.nr) == Some(t.enosys_value()));
    assert(bpf_run(prog, d, le, 24, d.nr) == if d.nr == t.clone {
        bpf_run(prog, d, le, 25, d.nr)
    } else {
        bpf_run(prog, d, le, 28, d.nr)
    });
    assert(bpf_run(prog, d, le, 22, d.nr) == if d.nr == t.clone3 {
        bpf_run(prog, d, le, 23, d.nr)
    } else {
        bpf_run(prog, d, le, 24, d.nr)
    });
}

/// Law: with numbers that hold on every Linux target (see
/// [`numbers_sound`]; [`SeccompProfile::program`] guarantees them), a
/// native `clone` without namespace flags — how threads and ordinary
/// subprocesses are made — is allowed, a native `clone3` is answered
/// `ENOSYS` so the C library retries with `clone`, `unshare`, `setns` and
/// `mount` fail with `EPERM` through any ABI, and through a foreign
/// `AUDIT_ARCH` every syscall fails with `EPERM`.
pub proof fn lemma_threads_kept_namespaces_blocked(t: SyscallNumbers, a: TargetArch, d: SeccompData)
    requires
        numbers_sound(t),
    ensures
        ((a.audit_arch matches Some(x) ==> d.arch == x) && d.nr == t.clone && low_word(d.args@[0])
            & CLONE_NEW_MASK == 0) ==> bpf_run(filter_spec(t, a), d, a.little_endian, 0, 0) == Some(
            SECCOMP_RET_ALLOW,
        ),
        (native_abi(t, a, d) && d.nr == t.clone3) ==> bpf_run(filter_spec(t, a), d, a.little_endian, 0, 0)
            == Some(t.enosys_value()),
        (d.nr == t.unshare || d.nr == t.setns || d.nr == t.mount) ==> bpf_run(
            filter_spec(t, a),
            d,
            a.little_endian,
            0,
            0,
        ) == Some(t.deny_value()),
        (a.audit_arch matches Some(x) && d.arch != x) ==> bpf_run(filter_spec(t, a), d, a.little_endian, 0, 0)
            == Some(t.deny_value()),
{
    lemma_filter_decision(t, a, d);
    assert(t.denied()[0] == t.unshare);
    assert(t.denied()[1] == t.setns);
    assert(t.denied()[2] == t.mount);
}

/// Builds the profile's program for the syscall numbers `t` and the ABI `a`.
pub fn seccomp_filter(t: &SyscallNumbers, a: &TargetArch) -> (f: Vec<SockFilter>)
    ensures
        f@ == filter_spec(*t, *a),
{
    proof {
        lemma_opcodes();
    }
    let deny: u32 = SECCOMP_RET_ERRNO | t.eperm;
    let mut filter: Vec<SockFilter> = Vec::new();
    filter.push(stmt(BPF_LD | BPF_W | BPF_ABS, 4));
    match a.audit_arch {
        Some(x) => filter.push(jump(BPF_JMP | BPF_JEQ | BPF_K, x, 1, 0)),
        None => filter.push(jump(BPF_JMP | BPF_JEQ | BPF_K, 0, 1, 1)),
    }
    filter.push(stmt(BPF_RET | BPF_K, deny));
    filter.push(stmt(BPF_LD | BPF_W | BPF_ABS, 0));
    if t.clone & a.x32_bit != 0 {
        filter.push(jump(BPF_JMP | BPF_JSET | BPF_K, a.x32_bit, 1, 0));
    } else {
        filter.push(jump(BPF_JMP | BPF_JSET | BPF_K, a.x32_bit, 0, 1));
    }
    filter.push(stmt(BPF_RET | BPF_K, deny));

    let denied: [u32; 8] = [t.unshare, t.setns, t.mount, t.umount2, t.pivot_root, t.ptrace, t.bpf, t.reboot];
    assert(denied@ =~= t.denied());
    assert(filter@ =~= Seq::new(6, |j: int| filter_instr(*t, *a, j)));
    let mut i: usize = 0;
    while i < 8
        invariant
            0 <= i <= 8,
            denied@ == t.denied(),
            deny == t.deny_value(),
            BPF_JMP | BPF_JEQ | BPF_K == OP_JEQ,
            BPF_RET | BPF_K == OP_RET,
            filter@ =~= Seq::new((6 + 2 * i) as nat, |j: int| filter_instr(*t, *a, j)),
        decreases 8 - i,
    {
        let ghost pc: int = 6 + 2 * i;
        assert((pc - 6) % 2 == 0 && (pc - 6) / 2 == i);
        assert((pc + 1 - 6) % 2 == 1);
        assert(filter_instr(*t, *a, pc) == jump_spec(OP_JEQ, denied@[i as int], 0, 1));
        assert(filter_instr(*t, *a, pc + 1) == jump_spec(OP_RET, deny, 0, 0));
        filter.push(jump(BPF_JMP | BPF_JEQ | BPF_K, denied[i], 0, 1));
        filter.push(stmt(BPF_RET | BPF_K, deny));
        i = i + 1;
    }

    filter.push(jump(BPF_JMP | BPF_JEQ | BPF_K, t.clone3, 0, 1));
    filter.push(stmt(BPF_RET | BPF_K, SECCOMP_RET_ERRNO | t.enosys));

    let arg0_low: u32 = if a.little_endian { 16 } else { 20 };
    filter.push(jump(BPF_JMP | BPF_JEQ | BPF_K, t.clone, 0, 3));
    filter.push(stmt(BPF_LD | BPF_W | BPF_ABS, arg0_low));
    filter.push(jump(BPF_JMP | BPF_JSET | BPF_K, CLONE_NEW_MASK, 0, 1));
    filter.push(stmt(BPF_RET | BPF_K, deny));
    filter.push(stmt(BPF_RET | BPF_K, SECCOMP_RET_ALLOW));
    assert(filter@ =~= filter_spec(*t, *a));
    filter
}

/// Built-in seccomp profile that denies namespace changes and selected
/// kernel-control operations after sandbox setup is complete.
///
/// This is a defense-in-depth profile, not a complete syscall allow-list.
/// Through the process's native ABI it blocks `unshare`, `setns`, mount
/// operations, `ptrace`, `bpf`, `reboot` and namespace-bearing `clone`
/// calls with `EPERM`, answers `clone3` with `ENOSYS` (so the C library
/// creates threads and subprocesses through `clone` instead), and leaves
/// threads, files, sockets and ordinary subprocesses alone. Every syscall
/// through a foreign ABI fails with `EPERM`: a 32-bit (i386 or x32) program
/// started inside the sandbox of an x86-64 process cannot run. See
/// [`lemma_filter_decision`].
#[derive(Clone, Copy, Debug)]
pub struct SeccompProfile;

impl SeccompProfile {
    /// Returns the built-in deny profile.
    pub fn deny_namespace_changes() -> (r: Self)
        ensures
            r == SeccompProfile,
    {
        SeccompProfile
    }

    /// The program of this profile for the syscall numbers `t` and the ABI
    /// `a`.
    pub fn filter_for(self, t: &SyscallNumbers, a: &TargetArch) -> (f: Vec<SockFilter>)
        ensures
            f@ == filter_spec(*t, *a),
            f@.len() == filter_len(),
    {
        seccomp_filter(t, a)
    }

    /// The program of this profile for the machine this process runs on,
    /// whose Rust `target_arch` is `arch_name` with the given byte order,
    /// with the numbers and ABI it was built from. The numbers are the
    /// target's own; they satisfy [`numbers_sound`], so
    /// [`lemma_threads_kept_namespaces_blocked`] holds of the program.
    pub fn program(self, arch_name: &str, little_endian: bool) -> (p: (SyscallNumbers, TargetArch, Vec<SockFilter>))
        ensures
            numbers_sound(p.0),
            p.1 == target_arch_spec(arch_name@, little_endian),
            p.2@ == filter_spec(p.0, p.1),
    {
        let a = target_arch(arch_name, little_endian);
        let t = host_syscall_numbers();
        let f = self.filter_for(&t, &a);
        (t, a, f)
    }
}

impl Default for SeccompProfile {
    fn default() -> (r: Self)
        ensures
            r == SeccompProfile,
    {
        SeccompProfile
    }
}

} // verus!

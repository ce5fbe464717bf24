use gateflow::seccomp::{
    jump, seccomp_filter, stmt, target_arch, SeccompProfile, SockFilter, SyscallNumbers, TargetArch,
    CLONE_NEW_MASK, SECCOMP_RET_ALLOW, SECCOMP_RET_ERRNO,
};

fn x86_64() -> SyscallNumbers {
    SyscallNumbers {
        unshare: 272,
        setns: 308,
        mount: 165,
        umount2: 166,
        pivot_root: 155,
        ptrace: 101,
        bpf: 321,
        reboot: 169,
        clone3: 435,
        clone: 56,
        eperm: 1,
        enosys: 38,
    }
}

const AUDIT_ARCH_X86_64: u32 = 0xC000_003E;
const AUDIT_ARCH_I386: u32 = 0x4000_0003;

fn native() -> TargetArch {
    target_arch("x86_64", true)
}

/// Runs a classic-BPF program the way a little-endian kernel does for the
/// opcodes the profile uses, on an ABI, a syscall number and the first
/// argument's low word.
fn run(prog: &[SockFilter], arch: u32, nr: u32, arg0: u32) -> Option<u32> {
    run_with(prog, arch, nr, arg0 as u64, true)
}

/// The same on a machine of the given byte order, with the whole 64-bit
/// first argument.
fn run_with(prog: &[SockFilter], arch: u32, nr: u32, arg0: u64, little_endian: bool) -> Option<u32> {
    let low = arg0 as u32;
    let high = (arg0 >> 32) as u32;
    let mut pc = 0usize;
    let mut acc = 0u32;
    while pc < prog.len() {
        let ins = prog[pc];
        match ins.code {
            0x20 => {
                acc = match ins.k {
                    0 => nr,
                    4 => arch,
                    16 => if little_endian { low } else { high },
                    20 => if little_endian { high } else { low },
                    _ => return None,
                };
                pc += 1;
            }
            0x15 => pc += 1 + if acc == ins.k { ins.jt } else { ins.jf } as usize,
            0x45 => pc += 1 + if acc & ins.k != 0 { ins.jt } else { ins.jf } as usize,
            0x06 => return Some(ins.k),
            _ => return None,
        }
    }
    None
}

#[test]
fn stmt_and_jump_fill_the_fields() {
    assert_eq!(stmt(0x06, 7), SockFilter { code: 0x06, jt: 0, jf: 0, k: 7 });
    assert_eq!(jump(0x15, 9, 2, 3), SockFilter { code: 0x15, jt: 2, jf: 3, k: 9 });
}

#[test]
fn target_arch_values_follow_audit_h() {
    assert_eq!(
        native(),
        TargetArch { audit_arch: Some(AUDIT_ARCH_X86_64), x32_bit: 0x4000_0000, little_endian: true }
    );
    assert_eq!(
        target_arch("x86", true),
        TargetArch { audit_arch: Some(AUDIT_ARCH_I386), x32_bit: 0, little_endian: true }
    );
    assert_eq!(target_arch("aarch64", true).audit_arch, Some(0xC000_00B7));
    assert_eq!(target_arch("s390x", false).audit_arch, Some(0x8000_0016));
    assert_eq!(
        target_arch("sparc64", false),
        TargetArch { audit_arch: None, x32_bit: 0, little_endian: false }
    );
}

#[test]
fn filter_has_the_documented_shape() {
    let f = seccomp_filter(&x86_64(), &native());
    assert_eq!(f.len(), 29);
    assert_eq!(f[0], stmt(0x20, 4));
    assert_eq!(f[1], jump(0x15, AUDIT_ARCH_X86_64, 1, 0));
    assert_eq!(f[3], stmt(0x20, 0));
    assert_eq!(f[6], jump(0x15, 272, 0, 1));
    assert_eq!(f[7], stmt(0x06, SECCOMP_RET_ERRNO | 1));
    assert_eq!(f[23], stmt(0x06, SECCOMP_RET_ERRNO | 38));
    assert_eq!(f[24], jump(0x15, 56, 0, 3));
    assert_eq!(f[25], stmt(0x20, 16));
    assert_eq!(f[26], jump(0x45, CLONE_NEW_MASK, 0, 1));
    assert_eq!(f[28], stmt(0x06, SECCOMP_RET_ALLOW));
}

#[test]
fn filter_denies_namespace_changes_and_allows_the_rest() {
    let f = SeccompProfile::deny_namespace_changes().filter_for(&x86_64(), &native());
    let deny = Some(0x0005_0001);
    for nr in [272, 308, 165, 166, 155, 101, 321, 169] {
        assert_eq!(run(&f, AUDIT_ARCH_X86_64, nr, 0), deny, "syscall {nr}");
    }
    // clone3 gets ENOSYS so the C library falls back to clone.
    assert_eq!(run(&f, AUDIT_ARCH_X86_64, 435, 0), Some(0x0005_0026));
    // clone(CLONE_NEWUTS) is denied, a thread-style clone is allowed.
    assert_eq!(run(&f, AUDIT_ARCH_X86_64, 56, 0x0400_0000), deny);
    assert_eq!(run(&f, AUDIT_ARCH_X86_64, 56, 0x003d_0f00), Some(SECCOMP_RET_ALLOW));
    // read, write, socket, exit_group pass.
    for nr in [0, 1, 41, 231] {
        assert_eq!(run(&f, AUDIT_ARCH_X86_64, nr, 0xffff_ffff), Some(SECCOMP_RET_ALLOW));
    }
}

#[test]
fn filter_denies_foreign_abis() {
    let f = SeccompProfile::deny_namespace_changes().filter_for(&x86_64(), &native());
    let deny = Some(0x0005_0001);
    // The i386 unshare (310) and even an i386 read.
    assert_eq!(run(&f, AUDIT_ARCH_I386, 310, 0), deny);
    assert_eq!(run(&f, AUDIT_ARCH_I386, 3, 0), deny);
    // An x32 read.
    assert_eq!(run(&f, AUDIT_ARCH_X86_64, 0x4000_0000, 0), deny);
}

#[test]
fn host_program_is_built_from_its_numbers() {
    let (numbers, arch, program) = SeccompProfile::deny_namespace_changes().program("x86_64", true);
    assert_eq!(arch, native());
    assert_eq!(numbers.eperm, 1);
    assert_eq!(program, seccomp_filter(&numbers, &arch));
    let native_arch = AUDIT_ARCH_X86_64;
    assert_eq!(run(&program, native_arch, numbers.unshare, 0), Some(SECCOMP_RET_ERRNO | 1));
    assert_eq!(run(&program, native_arch, numbers.clone, 0), Some(SECCOMP_RET_ALLOW));
    assert_eq!(run(&program, native_arch, numbers.clone3, 0), Some(SECCOMP_RET_ERRNO | numbers.enosys));
}

#[test]
fn unknown_architecture_keeps_the_syscall_checks() {
    let (_, arch, program) = SeccompProfile::deny_namespace_changes().program("sparc64", false);
    assert_eq!(arch.audit_arch, None);
    assert_eq!(program.len(), 29);
    let f = seccomp_filter(&x86_64(), &arch);
    // No ABI is refused by its AUDIT_ARCH, the syscall checks remain.
    assert_eq!(run_with(&f, 0x1234, 0, 0, false), Some(SECCOMP_RET_ALLOW));
    assert_eq!(run_with(&f, 0x1234, 272, 0, false), Some(0x0005_0001));
}

#[test]
fn clone_flags_are_read_in_the_machine_byte_order() {
    let t = x86_64();
    let be = TargetArch { audit_arch: Some(0x8000_0016), x32_bit: 0, little_endian: false };
    let f = seccomp_filter(&t, &be);
    assert_eq!(f[25], stmt(0x20, 20));
    // CLONE_NEWNS in the low half of the 64-bit flags is denied on a
    // big-endian machine too; high-half bits are not flags.
    assert_eq!(run_with(&f, 0x8000_0016, 56, 0x0002_0000, false), Some(0x0005_0001));
    assert_eq!(run_with(&f, 0x8000_0016, 56, 0x0002_0000_0000_0000, false), Some(SECCOMP_RET_ALLOW));
}

#[test]
fn x32_process_allows_its_own_syscalls() {
    let mut t = x86_64();
    for n in [&mut t.unshare, &mut t.setns, &mut t.mount, &mut t.umount2, &mut t.pivot_root, &mut t.ptrace, &mut t.bpf, &mut t.reboot, &mut t.clone3, &mut t.clone] {
        *n |= 0x4000_0000;
    }
    let f = seccomp_filter(&t, &native());
    // An x32 read passes, a 64-bit read is a foreign ABI here.
    assert_eq!(run(&f, AUDIT_ARCH_X86_64, 0x4000_0000, 0), Some(SECCOMP_RET_ALLOW));
    assert_eq!(run(&f, AUDIT_ARCH_X86_64, 0, 0), Some(0x0005_0001));
    assert_eq!(run(&f, AUDIT_ARCH_X86_64, 0x4000_0000 | 272, 0), Some(0x0005_0001));
}

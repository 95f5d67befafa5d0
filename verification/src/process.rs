//! Decisions of process creation: which flags a new zygote is cloned with,
//! how the argument block of `clone3` is laid out, and what the raw results of
//! the system calls mean. The system calls themselves are made by the caller.

use vstd::prelude::*;

verus! {

/// Number of 64-bit words in the argument block of `clone3`.
pub const CLONE_ARGS_WORDS: usize = 11;

/// Index of the flags word in the argument block of `clone3`.
pub const CLONE_ARGS_FLAGS: usize = 0;

/// Index of the exit signal word in the argument block of `clone3`.
pub const CLONE_ARGS_EXIT_SIGNAL: usize = 4;

/// The flag that makes the new process a sibling of the caller.
pub open spec fn spec_clone_parent() -> int {
    0x8000
}

/// Whether `signal` is the number that Linux gives `SIGCHLD` on some
/// architecture.
pub open spec fn is_sigchld(signal: int) -> bool {
    signal == 17 || signal == 18 || signal == 20
}

/// The value of a 32-bit signed integer widened to 64 bits with its sign, read
/// as unsigned.
pub open spec fn sign_extended(value: int) -> int {
    if value >= 0 {
        value
    } else {
        value + 0x1_0000_0000_0000_0000
    }
}

/// Whether `nix::sched::CloneFlags::from_bits` accepts `bits`, that is whether
/// every bit set in it is a flag that nix knows.
pub uninterp spec fn clone_flags_known(bits: i32) -> bool;

/// Reads `libc::CLONE_PARENT`, which is `0x8000` on every Linux target.
#[verifier::external_body]
fn clone_parent() -> (flag: i32)
    ensures
        flag == spec_clone_parent(),
{
    libc::CLONE_PARENT
}

/// Reads `libc::SIGCHLD`. Linux numbers it 17 on most architectures, 18 on
/// MIPS and 20 on SPARC, and nothing more is claimed here.
#[verifier::external_body]
fn sigchld() -> (signal: i32)
    ensures
        is_sigchld(signal as int),
{
    libc::SIGCHLD
}

/// Calls `nix::sched::CloneFlags::from_bits` and hands out the bits of the set
/// it made. It makes a set exactly when no bit outside the flags that nix
/// defines is set, and the set then holds the very bits it was given; the
/// empty set and `CLONE_PARENT` alone are among the values it accepts.
#[verifier::external_body]
fn clone_flags_from_bits(bits: i32) -> (valid: Option<i32>)
    ensures
        match valid {
            Some(kept) => clone_flags_known(bits) && kept == bits,
            None => !clone_flags_known(bits),
        },
        bits == 0 || bits == spec_clone_parent() ==> valid is Some,
{
    match nix::sched::CloneFlags::from_bits(bits) {
        Some(flags) => Some(flags.bits()),
        None => None,
    }
}

/// What a new process is cloned with.
#[derive(Clone, Copy, Debug, PartialEq, Eq, Structural)]
pub struct CloneRequest {
    /// Clone flags, as the kernel takes them.
    pub flags: i32,
    /// Signal delivered to the parent when the new process exits, or 0 for none.
    pub exit_signal: i32,
}

/// What the raw result of a clone system call means.
#[derive(Clone, Copy, Debug, PartialEq, Eq, Structural)]
pub enum CloneOutcome {
    /// The call returned in the new process.
    Child,
    /// The call returned in the caller; the new process has this id.
    Parent(i64),
    /// The call failed and the operating system's error code says why.
    OsError,
    /// The call returned a value that it never should.
    Unknown,
}

/// What the value that `setjmp` returned means, in the creation path that
/// clones onto a scratch stack and jumps back.
#[derive(Clone, Copy, Debug, PartialEq, Eq, Structural)]
pub enum JumpOutcome {
    /// First return: the process has not been cloned yet.
    Proceed,
    /// Return through the jump out of the new process.
    Child,
    /// A value that no jump of this library produces.
    Unknown,
}

impl CloneRequest {
    /// The request for a new zygote.
    ///
    /// A sibling shares the caller's parent and reports its exit to nobody; a
    /// child has the caller as its parent and signals it with `SIGCHLD`.
    pub fn new(sibling: bool) -> (request: CloneRequest)
        ensures
            sibling ==> request.flags == spec_clone_parent() && request.exit_signal == 0,
            !sibling ==> request.flags == 0 && is_sigchld(request.exit_signal as int),
    {
        if sibling {
            CloneRequest { flags: clone_parent(), exit_signal: 0 }
        } else {
            CloneRequest { flags: 0, exit_signal: sigchld() }
        }
    }

    /// The argument block for `clone3`: flags in the first word, the exit
    /// signal in the fifth, both widened with their sign, and zero elsewhere.
    pub fn clone3_args(&self) -> (args: [u64; 11])
        ensures
            args@.len() == CLONE_ARGS_WORDS,
            args@[CLONE_ARGS_FLAGS as int] == sign_extended(self.flags as int),
            args@[CLONE_ARGS_EXIT_SIGNAL as int] == sign_extended(self.exit_signal as int),
            forall|i: int|
                0 <= i < CLONE_ARGS_WORDS && i != CLONE_ARGS_FLAGS && i != CLONE_ARGS_EXIT_SIGNAL
                    ==> args@[i] == 0,
    {
        let flags = widen(self.flags);
        let exit_signal = widen(self.exit_signal);
        [flags, 0, 0, 0, exit_signal, 0, 0, 0, 0, 0, 0]
    }

    /// The flags of this request as the creation path that clones onto a
    /// scratch stack passes them on: the bits of the request where nix knows
    /// every flag that is set in them, and `None` where it does not. The
    /// requests that `CloneRequest::new` makes always pass.
    pub fn fallback_flags(&self) -> (flags: Option<i32>)
        ensures
            match flags {
                Some(bits) => clone_flags_known(self.flags) && bits == self.flags,
                None => !clone_flags_known(self.flags),
            },
            self.flags == 0 || self.flags == spec_clone_parent() ==> flags == Some(self.flags),
    {
        clone_flags_from_bits(self.flags)
    }
}

/// Widens a 32-bit signed integer to an unsigned 64-bit word, keeping its
/// two's complement bits.
pub fn widen(value: i32) -> (word: u64)
    ensures
        word == sign_extended(value as int),
{
    if value >= 0 {
        value as u64
    } else {
        let below: u64 = (-(value as i64) - 1) as u64;
        u64::MAX - below
    }
}

/// Reads the result of the `clone3` system call.
pub fn classify_clone3(res: i64) -> (outcome: CloneOutcome)
    ensures
        res == 0 ==> outcome == CloneOutcome::Child,
        res >= 1 ==> outcome == CloneOutcome::Parent(res),
        res == -1 ==> outcome == CloneOutcome::OsError,
        res < -1 ==> outcome == CloneOutcome::Unknown,
{
    if res == 0 {
        CloneOutcome::Child
    } else if res >= 1 {
        CloneOutcome::Parent(res)
    } else if res == -1 {
        CloneOutcome::OsError
    } else {
        CloneOutcome::Unknown
    }
}

/// Reads the value that `setjmp` returned.
pub fn classify_setjmp(res: i32) -> (outcome: JumpOutcome)
    ensures
        res == 0 ==> outcome == JumpOutcome::Proceed,
        res == 1 ==> outcome == JumpOutcome::Child,
        res != 0 && res != 1 ==> outcome == JumpOutcome::Unknown,
{
    if res == 0 {
        JumpOutcome::Proceed
    } else if res == 1 {
        JumpOutcome::Child
    } else {
        JumpOutcome::Unknown
    }
}

impl CloneOutcome {
    /// Whether the creation path that clones onto a scratch stack should be
    /// tried: it is the fallback for a `clone3` that did not create a process.
    pub fn needs_fallback(&self) -> (fallback: bool)
        ensures
            fallback == (*self == CloneOutcome::OsError || *self == CloneOutcome::Unknown),
    {
        match self {
            CloneOutcome::Child => false,
            CloneOutcome::Parent(_) => false,
            CloneOutcome::OsError => true,
            CloneOutcome::Unknown => true,
        }
    }
}

} // verus!

//! The futex word: bit-exact kernel ABI encoding, and the typed outcomes of
//! the PI-futex syscalls.
//!
//! A PI-futex word is `0` when free; otherwise its low bits hold the owner's
//! kernel thread id, the kernel sets `FUTEX_WAITERS` when threads are parked
//! on it, and sets `FUTEX_OWNER_DIED` when the owner terminated without
//! releasing.  User code touches the word only through the documented
//! compare-and-swap transitions; everything else is the kernel's.

use vstd::prelude::*;

verus! {

/// High bit the kernel sets on a futex word when its owner died while
/// holding the lock.
pub const FUTEX_OWNER_DIED: u32 = 0x4000_0000;

/// Mask selecting the owner-tid bits of a futex word.
pub const FUTEX_TID_MASK: u32 = 0x3fff_ffff;

/// Bit the kernel sets on a futex word while waiters are parked on it.
pub const FUTEX_WAITERS: u32 = 0x8000_0000;

/// The owner-tid bits of a futex word.
pub open spec fn owner_bits(w: u32) -> u32 {
    w & FUTEX_TID_MASK
}

/// Whether the kernel marked this word as abandoned by a dead owner.
pub open spec fn owner_died(w: u32) -> bool {
    w & FUTEX_OWNER_DIED != 0
}

/// Whether the kernel marked this word as having parked waiters.
pub open spec fn has_waiters(w: u32) -> bool {
    w & FUTEX_WAITERS != 0
}

/// `w` with the owner-died mark removed; what a new acquirer must store
/// before doing any user-visible work through the mutex.
pub open spec fn clear_owner_died(w: u32) -> u32 {
    w & 0xbfff_ffff
}

/// A kernel thread id that can serve as a futex owner: nonzero, and small
/// enough to fit the tid bits of the word.
pub open spec fn valid_tid(tid: u32) -> bool {
    0 < tid <= FUTEX_TID_MASK
}

/// The word the kernel's robust-list walk leaves on a mutex whose owner
/// exited without releasing: tid bits cleared, waiters kept, died mark set.
pub open spec fn word_after_owner_exit(w: u32) -> u32 {
    (w & FUTEX_WAITERS) | FUTEX_OWNER_DIED
}

pub fn word_owner(w: u32) -> (r: u32)
    ensures
        r == owner_bits(w),
{
    w & FUTEX_TID_MASK
}

pub fn word_owner_died(w: u32) -> (r: bool)
    ensures
        r == owner_died(w),
{
    w & FUTEX_OWNER_DIED != 0
}

pub fn word_has_waiters(w: u32) -> (r: bool)
    ensures
        r == has_waiters(w),
{
    w & FUTEX_WAITERS != 0
}

pub fn word_is_free(w: u32) -> (r: bool)
    ensures
        r == (owner_bits(w) == 0),
{
    w & FUTEX_TID_MASK == 0
}

pub fn word_clear_owner_died(w: u32) -> (r: u32)
    ensures
        r == clear_owner_died(w),
{
    w & 0xbfff_ffff
}

/// The facts about the word encoding that the protocol leans on: clearing
/// the died mark touches no other bit, a valid tid is its own owner field,
/// and the kernel's owner-exit rewrite leaves an ownerless, marked word.
pub proof fn lemma_word_encoding(w: u32, tid: u32)
    ensures
        owner_bits(clear_owner_died(w)) == owner_bits(w),
        !owner_died(clear_owner_died(w)),
        has_waiters(clear_owner_died(w)) == has_waiters(w),
        !owner_died(w) ==> clear_owner_died(w) == w,
        valid_tid(tid) ==> owner_bits(tid) == tid && !owner_died(tid) && !has_waiters(tid)
            && clear_owner_died(tid) == tid,
        owner_bits(word_after_owner_exit(w)) == 0,
        owner_died(word_after_owner_exit(w)),
        has_waiters(word_after_owner_exit(w)) == has_waiters(w),
        w == 0 ==> owner_bits(w) == 0 && !owner_died(w),
        owner_bits(w) == 0 && !owner_died(w) && !has_waiters(w) ==> w == 0,
{
    assert((w & 0xbfff_ffffu32) & 0x3fff_ffffu32 == w & 0x3fff_ffffu32) by (bit_vector);
    assert((w & 0xbfff_ffffu32) & 0x4000_0000u32 == 0) by (bit_vector);
    assert(((w & 0xbfff_ffffu32) & 0x8000_0000u32) == (w & 0x8000_0000u32)) by (bit_vector);
    assert(w & 0x4000_0000u32 == 0 ==> (w & 0xbfff_ffffu32) == w) by (bit_vector);
    assert(0 < tid <= 0x3fff_ffffu32 ==> tid & 0x3fff_ffffu32 == tid && tid & 0x4000_0000u32 == 0
        && tid & 0x8000_0000u32 == 0 && tid & 0xbfff_ffffu32 == tid) by (bit_vector);
    assert(((w & 0x8000_0000u32) | 0x4000_0000u32) & 0x3fff_ffffu32 == 0) by (bit_vector);
    assert(((w & 0x8000_0000u32) | 0x4000_0000u32) & 0x4000_0000u32 != 0) by (bit_vector);
    assert((((w & 0x8000_0000u32) | 0x4000_0000u32) & 0x8000_0000u32) == (w & 0x8000_0000u32))
        by (bit_vector);
    assert(w & 0x3fff_ffffu32 == 0 && w & 0x4000_0000u32 == 0 && w & 0x8000_0000u32 == 0
        ==> w == 0) by (bit_vector);
    assert(0u32 & 0x3fff_ffffu32 == 0 && 0u32 & 0x4000_0000u32 == 0) by (bit_vector);
}

/// A discriminated failure of a lock or wait operation, derived from the
/// errno a futex syscall came back with.
#[derive(Clone, Copy, Debug, PartialEq, Eq, Structural)]
pub enum LockError {
    /// The deadline expired before the lock was acquired.
    TimedOut,
    /// A signal interrupted the syscall.
    Interrupted,
    /// Any other errno, surfaced verbatim.
    Kernel(i32),
}

/// How one acquire attempt ended when it succeeded: cleanly, or holding a
/// lock whose previous owner terminated mid-critical-section.
#[derive(Clone, Copy, Debug, PartialEq, Eq, Structural)]
pub enum LockOutcome {
    Clean,
    OwnerDied,
}

/// What one `FUTEX_LOCK_PI` syscall came back with.  `Granted` carries the
/// word the kernel left behind; the kernel writes the caller's tid into it,
/// possibly together with `FUTEX_WAITERS` and `FUTEX_OWNER_DIED`.
#[derive(Clone, Copy, Debug, PartialEq, Eq, Structural)]
pub enum LockPiReply {
    Granted { word: u32 },
    Interrupted,
    TimedOut,
    Failed { errno: i32 },
}

/// What the protocol does with one `FUTEX_LOCK_PI` reply.
#[derive(Clone, Copy, Debug, PartialEq, Eq, Structural)]
pub enum LockStep {
    /// The syscall was interrupted and the caller did not ask for
    /// signal-fail semantics: issue it again.
    Retry,
    /// The kernel granted ownership.
    Acquired,
    /// Give up and surface this error.
    Fail(LockError),
}

/// A reply a caller may act on (anything but a transparently retried
/// interrupt).
pub open spec fn decisive(r: LockPiReply, signals_fail: bool) -> bool {
    !(r is Interrupted && !signals_fail)
}

/// The position of the first reply in `rs` that a caller acts on.
pub open spec fn first_decisive(rs: Seq<LockPiReply>, signals_fail: bool) -> int
    decreases rs.len(),
{
    if rs.len() == 0 {
        0
    } else if decisive(rs[0], signals_fail) {
        0
    } else {
        1 + first_decisive(rs.drop_first(), signals_fail)
    }
}

pub proof fn lemma_first_decisive(rs: Seq<LockPiReply>, signals_fail: bool, i: int)
    requires
        0 <= i < rs.len(),
        decisive(rs[i], signals_fail),
        forall|j: int| 0 <= j < i ==> !decisive(#[trigger] rs[j], signals_fail),
    ensures
        first_decisive(rs, signals_fail) == i,
    decreases i,
{
    if i > 0 {
        assert(!decisive(rs[0], signals_fail));
        assert(rs.drop_first()[i - 1] == rs[i]);
        assert(forall|j: int| 0 <= j < i - 1 ==> rs.drop_first()[j] == rs[j + 1]);
        lemma_first_decisive(rs.drop_first(), signals_fail, i - 1);
    }
}

/// The retry policy around `FUTEX_LOCK_PI`: success proceeds, a timeout
/// fails with `TimedOut`, an interrupt retries transparently unless the
/// caller asked for signal-fail semantics, and any other errno is surfaced.
pub fn lock_retry_decision(reply: &LockPiReply, signals_fail: bool) -> (r: LockStep)
    ensures
        reply matches LockPiReply::Granted { .. } ==> r == LockStep::Acquired,
        reply is TimedOut ==> r == LockStep::Fail(LockError::TimedOut),
        reply is Interrupted && signals_fail ==> r == LockStep::Fail(LockError::Interrupted),
        reply is Interrupted && !signals_fail ==> r == LockStep::Retry,
        (*reply) matches LockPiReply::Failed { errno } ==> r == LockStep::Fail(
            LockError::Kernel(errno),
        ),
{
    match reply {
        LockPiReply::Granted { .. } => LockStep::Acquired,
        LockPiReply::TimedOut => LockStep::Fail(LockError::TimedOut),
        LockPiReply::Interrupted => {
            if signals_fail {
                LockStep::Fail(LockError::Interrupted)
            } else {
                LockStep::Retry
            }
        },
        LockPiReply::Failed { errno } => LockStep::Fail(LockError::Kernel(*errno)),
    }
}

/// What a `FUTEX_UNLOCK_PI` syscall left on the word: `0` when no waiter was
/// there to take over, or the new owner's tid (with `FUTEX_WAITERS` if more
/// remain).  The kernel never hands the lock back to the releaser.
#[derive(Clone, Copy, Debug, PartialEq, Eq, Structural)]
pub struct UnlockReply {
    pub word: u32,
}

/// The mutex control block, in the fixed C layout the kernel ABI fixes: the
/// futex word, then the robust-list link the kernel follows on owner death,
/// then a reserved symmetric link.  The running system places this block in
/// shared memory and drives the word through atomic operations; this model
/// holds the same fields as plain values.
pub struct AosMutex {
    /// Kernel futex state: 0 = free; low bits = owner tid; high bits
    /// `FUTEX_OWNER_DIED` and `FUTEX_WAITERS`.
    pub futex: u32,
    /// Robust-list link to the next owned mutex (kernel ABI).
    pub next: usize,
    /// Reserved; not read by the kernel, kept for symmetry.
    pub previous: usize,
}

impl Default for AosMutex {
    /// A zero-initialized control block: free, unowned, unlinked — the state
    /// a freshly mapped shared region presents.
    fn default() -> (r: Self)
        ensures
            r.futex == 0,
            r.next == 0,
            r.previous == 0,
    {
        AosMutex { futex: 0, next: 0, previous: 0 }
    }
}

/// A relative timeout in the shape the kernel takes: whole seconds and the
/// nanosecond remainder.
#[derive(Clone, Copy, Debug, PartialEq, Eq, Structural)]
pub struct TimeSpec {
    pub tv_sec: i64,
    pub tv_nsec: i64,
}

/// Converts a duration, given as whole seconds and the nanosecond remainder,
/// into the kernel's timespec shape.
pub fn duration_to_timespec(secs: u64, nanos: u32) -> (r: TimeSpec)
    requires
        secs as int <= i64::MAX as int,
        nanos < 1_000_000_000,
    ensures
        r.tv_sec as int == secs as int,
        r.tv_nsec as int == nanos as int,
{
    TimeSpec { tv_sec: secs as i64, tv_nsec: nanos as i64 }
}

} // verus!

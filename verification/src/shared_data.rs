//! The shared-memory record a named region holds: `{ mutex, initialized,
//! payload }`, with the attach protocol that lazily initializes the payload
//! under the lock, and the serialization law for payload updates.
//!
//! The region arrives zero-initialized from the shared-memory allocator, so
//! the record starts free and uninitialized; the first process to attach
//! takes the lock, fills in the payload, and sets the flag.  A process that
//! finds the mutex abandoned reports it — and, if asked to, re-initializes
//! the payload, since the previous holder may have left it inconsistent.

use vstd::prelude::*;

use crate::futex::LockError;
use crate::futex::LockOutcome;
use crate::futex::LockPiReply;
use crate::futex::UnlockReply;
use crate::futex::decisive;
use crate::futex::first_decisive;
use crate::futex::lemma_word_encoding;
use crate::futex::owner_bits;
use crate::futex::owner_died;
use crate::futex::valid_tid;
use crate::mutex::PiMutex;
use crate::mutex::TryLockOutcome;
use crate::mutex::acquire_outcome;
use crate::mutex::acquire_updates;
use crate::mutex::lock_inner_post;
use crate::mutex::lock_pre;
use crate::mutex::lock_reply_wf;
use crate::mutex::unlock_reply_wf;
use crate::robust_list::ThreadRobustList;

verus! {

/// What a payload must be to live in shared memory reachable by unrelated
/// processes: trivially copyable and self-contained.
pub trait SharedMemorySafe: Copy + Sync {

}

impl<T: Copy + Sync> SharedMemorySafe for T {

}

/// The record at the start of a named shared region.
pub struct SharedMutexInner<T> {
    /// The mutex guarding everything after it.
    pub futex: PiMutex,
    /// Whether some process has initialized the payload, written only
    /// under the mutex.
    pub init: bool,
    /// The protected payload.
    pub data: T,
}

/// Whether an attaching process must (re)initialize the payload: when
/// nobody has yet, or when the previous holder died and the caller asked
/// for recovery.
pub fn needs_init(owner_died_flag: bool, recover: bool, init: bool) -> (b: bool)
    ensures
        b == ((owner_died_flag && recover) || !init),
{
    (owner_died_flag && recover) || !init
}

/// Whether an acquire starting at word `w0`, fed `replies`, took the lock
/// from a dead owner (the fast path only takes a free, clean word).
pub open spec fn acquire_saw_died(w0: u32, replies: Seq<LockPiReply>) -> bool {
    if w0 == 0 {
        false
    } else {
        replies[first_decisive(replies, false)] matches LockPiReply::Granted { word }
            && owner_died(word)
    }
}

impl<T: SharedMemorySafe> SharedMutexInner<T> {
    /// The record as a freshly mapped region presents it: mutex free,
    /// payload not yet initialized, its bytes whatever the region holds
    /// (all zero from the allocator).
    pub fn new(data: T) -> (r: Self)
        ensures
            r.futex.0.futex == 0,
            r.futex.0.next == 0,
            owner_bits(r.futex.0.futex) == 0,
            !r.init,
            r.data == data,
    {
        SharedMutexInner { futex: PiMutex::new(), init: false, data }
    }

    /// The attach protocol: take the lock (learning whether the previous
    /// owner died), lazily (re)initialize the payload under it, mark the
    /// record initialized, and release.  `Ok(poisoned)` reports whether the
    /// mutex was found abandoned; the caller chose with `recover` whether
    /// that also re-initialized the payload.  Success is owed whenever the
    /// acquire succeeds — always on a free word, and on an occupied one
    /// whenever the first kernel reply acted on is a grant; only a kernel
    /// failure errs, and then the record is left untouched.
    pub fn attach(
        &mut self,
        th: &mut ThreadRobustList,
        tid: u32,
        node_addr: usize,
        replies: &Vec<LockPiReply>,
        transfer: &UnlockReply,
        recover: bool,
        initial: T,
    ) -> (r: Result<bool, LockError>)
        requires
            lock_pre(old(self).futex, *old(th), tid, node_addr),
            forall|i: int|
                0 <= i < replies@.len() ==> lock_reply_wf(#[trigger] replies@[i], tid, false),
            old(self).futex.0.futex != 0 ==> exists|i: int|
                0 <= i < replies@.len() && decisive(#[trigger] replies@[i], false),
            unlock_reply_wf(*transfer, tid),
        ensures
            final(th).wf(),
            final(th).head.head_addr == old(th).head.head_addr,
            final(th).head.futex_offset == old(th).head.futex_offset,
            r matches Ok(poisoned) ==> {
                &&& poisoned == acquire_saw_died(old(self).futex.0.futex, replies@)
                &&& final(self).init
                &&& final(self).data == (if (poisoned && recover) || !old(self).init {
                    initial
                } else {
                    old(self).data
                })
                &&& owner_bits(final(self).futex.0.futex) != tid
                &&& final(th).owned() == old(th).owned()
            },
            old(self).futex.0.futex == 0 ==> r is Ok,
            r matches Err(e) ==> *final(self) == *old(self) && *final(th) == *old(th)
                && lock_inner_post(
                old(self).futex,
                final(self).futex,
                *old(th),
                *final(th),
                tid,
                node_addr,
                false,
                replies@,
                Err(e),
            ),
    {
        let owner_died_flag: bool;
        match self.futex.lock(th, tid, node_addr, replies) {
            Ok(LockOutcome::OwnerDied) => {
                owner_died_flag = true;
            },
            Ok(LockOutcome::Clean) => {
                owner_died_flag = false;
            },
            Err(e) => {
                return Err(e);
            },
        }
        if needs_init(owner_died_flag, recover, self.init) {
            self.data = initial;
            self.init = true;
        }
        proof {
            lemma_word_encoding(self.futex.0.futex, tid);
        }
        self.futex.unlock(th, tid, node_addr, transfer);
        proof {
            let added = seq![node_addr] + old(th).owned();
            assert(added[0] == node_addr);
            added.index_of_first_ensures(node_addr);
            assert(added.index_of_first(node_addr) == Some(0int));
            assert(added.remove(0) =~= old(th).owned());
        }
        Ok(owner_died_flag)
    }

    /// Acquires the guarding mutex; `Ok(OwnerDied)` hands the caller the
    /// lock together with the warning that the previous holder terminated
    /// mid-critical-section and the payload wants inspecting.
    pub fn lock(
        &mut self,
        th: &mut ThreadRobustList,
        tid: u32,
        node_addr: usize,
        replies: &Vec<LockPiReply>,
    ) -> (r: Result<LockOutcome, LockError>)
        requires
            lock_pre(old(self).futex, *old(th), tid, node_addr),
            forall|i: int|
                0 <= i < replies@.len() ==> lock_reply_wf(#[trigger] replies@[i], tid, false),
            old(self).futex.0.futex != 0 ==> exists|i: int|
                0 <= i < replies@.len() && decisive(#[trigger] replies@[i], false),
        ensures
            lock_inner_post(
                old(self).futex,
                final(self).futex,
                *old(th),
                *final(th),
                tid,
                node_addr,
                false,
                replies@,
                r,
            ),
            r is Ok ==> owner_bits(final(self).futex.0.futex) == tid && final(th).owned().contains(
                node_addr,
            ),
            r is Err ==> *final(self) == *old(self) && *final(th) == *old(th),
            final(self).init == old(self).init,
            final(self).data == old(self).data,
            final(th).wf(),
            final(th).head.head_addr == old(th).head.head_addr,
            final(th).head.futex_offset == old(th).head.futex_offset,
    {
        self.futex.lock(th, tid, node_addr, replies)
    }

    /// Locks and ignores whether the lock was poisoned: the caller holds
    /// the mutex either way.  Only a kernel failure still surfaces, and
    /// then nothing is held.
    pub fn grab(
        &mut self,
        th: &mut ThreadRobustList,
        tid: u32,
        node_addr: usize,
        replies: &Vec<LockPiReply>,
    ) -> (r: Result<(), LockError>)
        requires
            lock_pre(old(self).futex, *old(th), tid, node_addr),
            forall|i: int|
                0 <= i < replies@.len() ==> lock_reply_wf(#[trigger] replies@[i], tid, false),
            old(self).futex.0.futex != 0 ==> exists|i: int|
                0 <= i < replies@.len() && decisive(#[trigger] replies@[i], false),
        ensures
            r is Ok ==> owner_bits(final(self).futex.0.futex) == tid && final(th).owned().contains(
                node_addr,
            ),
            r matches Err(e) ==> *final(self) == *old(self) && *final(th) == *old(th)
                && lock_inner_post(
                old(self).futex,
                final(self).futex,
                *old(th),
                *final(th),
                tid,
                node_addr,
                false,
                replies@,
                Err(e),
            ),
            final(self).init == old(self).init,
            final(self).data == old(self).data,
            final(th).wf(),
            final(th).head.head_addr == old(th).head.head_addr,
            final(th).head.futex_offset == old(th).head.futex_offset,
    {
        match self.lock(th, tid, node_addr, replies) {
            Ok(_) => Ok(()),
            Err(e) => Err(e),
        }
    }

    /// One try at the guarding mutex: `Ok(None)`-like `NotAcquired` when
    /// someone else holds it, escalating to the kernel when the word shows
    /// an abandoned lock.
    pub fn try_lock(
        &mut self,
        th: &mut ThreadRobustList,
        tid: u32,
        node_addr: usize,
        escalate: &LockPiReply,
    ) -> (r: Result<TryLockOutcome, LockError>)
        requires
            lock_pre(old(self).futex, *old(th), tid, node_addr),
            owner_died(old(self).futex.0.futex) ==> lock_reply_wf(*escalate, tid, false),
        ensures
            old(self).futex.0.futex == 0 ==> r == Ok::<TryLockOutcome, LockError>(
                TryLockOutcome::Acquired(LockOutcome::Clean),
            ) && owner_bits(final(self).futex.0.futex) == tid,
            old(self).futex.0.futex != 0 && !owner_died(old(self).futex.0.futex) ==> r == Ok::<
                TryLockOutcome,
                LockError,
            >(TryLockOutcome::NotAcquired) && *final(self) == *old(self) && *final(th) == *old(th),
            r matches Ok(TryLockOutcome::Acquired(_)) ==> owner_bits(final(self).futex.0.futex)
                == tid && final(th).owned().contains(node_addr),
            owner_died(old(self).futex.0.futex) ==> {
                &&& ((*escalate) matches LockPiReply::Granted { word } ==> r == Ok::<
                    TryLockOutcome,
                    LockError,
                >(TryLockOutcome::Acquired(acquire_outcome(word))) && acquire_updates(
                    old(self).futex,
                    final(self).futex,
                    *old(th),
                    *final(th),
                    node_addr,
                    word,
                ))
                &&& (escalate is TimedOut ==> r == Err::<TryLockOutcome, LockError>(
                    LockError::TimedOut,
                ) && *final(self) == *old(self) && *final(th) == *old(th))
                &&& (escalate is Interrupted ==> r == Err::<TryLockOutcome, LockError>(
                    LockError::Interrupted,
                ) && *final(self) == *old(self) && *final(th) == *old(th))
                &&& ((*escalate) matches LockPiReply::Failed { errno } ==> r == Err::<
                    TryLockOutcome,
                    LockError,
                >(LockError::Kernel(errno)) && *final(self) == *old(self) && *final(th) == *old(
                    th,
                ))
            },
            final(self).init == old(self).init,
            final(self).data == old(self).data,
            final(th).wf(),
            final(th).head.head_addr == old(th).head.head_addr,
            final(th).head.futex_offset == old(th).head.futex_offset,
    {
        proof {
            lemma_word_encoding(old(self).futex.0.futex, tid);
        }
        let r = self.futex.try_lock(th, tid, node_addr, escalate);
        proof {
            if r matches Ok(TryLockOutcome::Acquired(_)) {
                if old(self).futex.0.futex != 0 && !owner_died(old(self).futex.0.futex) {
                } else if old(self).futex.0.futex == 0 {
                    lemma_word_encoding(self.futex.0.futex, tid);
                    assert(th.owned()[0] == node_addr);
                } else {
                    let w = escalate->Granted_word;
                    lemma_word_encoding(w, tid);
                    assert(th.owned()[0] == node_addr);
                }
            }
        }
        r
    }

    /// Releases the guarding mutex.
    pub fn unlock(
        &mut self,
        th: &mut ThreadRobustList,
        tid: u32,
        node_addr: usize,
        transfer: &UnlockReply,
    )
        requires
            old(th).wf(),
            valid_tid(tid),
            owner_bits(old(self).futex.0.futex) == tid,
            old(self).futex.0.futex != tid ==> unlock_reply_wf(*transfer, tid),
        ensures
            final(th).wf(),
            final(th).owned() == old(th).owned().remove_value(node_addr),
            !final(th).owned().contains(node_addr),
            final(th).head.head_addr == old(th).head.head_addr,
            final(th).head.futex_offset == old(th).head.futex_offset,
            old(self).futex.0.futex == tid ==> final(self).futex.0.futex == 0,
            old(self).futex.0.futex != tid ==> final(self).futex.0.futex == transfer.word,
            owner_bits(final(self).futex.0.futex) != tid,
            final(self).init == old(self).init,
            final(self).data == old(self).data,
    {
        self.futex.unlock(th, tid, node_addr, transfer)
    }

    /// Whether any process holds the guarding mutex; a relaxed observation.
    pub fn is_locked(&self) -> (r: bool)
        ensures
            r == (self.futex.0.futex != 0),
    {
        self.futex.is_locked()
    }

    /// Reads the payload.  Only the holder may look: concurrent readers
    /// without the lock are forbidden.
    pub fn payload(&self, tid: u32) -> (r: &T)
        requires
            valid_tid(tid),
            owner_bits(self.futex.0.futex) == tid,
        ensures
            *r == self.data,
    {
        &self.data
    }

    /// Writes the payload.  Only the holder may: mutation of the protected
    /// bytes is permitted only while the owner's tid is visible in the
    /// futex word.
    pub fn set_payload(&mut self, tid: u32, v: T)
        requires
            valid_tid(tid),
            owner_bits(old(self).futex.0.futex) == tid,
        ensures
            final(self).data == v,
            final(self).init == old(self).init,
            final(self).futex == old(self).futex,
    {
        self.data = v;
    }
}

// ---------------------------------------------------------------------------
// The serialization law: what mutual exclusion buys a shared counter.
// ---------------------------------------------------------------------------

/// The counter after `sections` critical sections that each read it,
/// add one, and write it back — under the mutex no two sections interleave,
/// so each section sees the previous one's write.
pub open spec fn counter_after(c: nat, sections: nat) -> nat
    decreases sections,
{
    if sections == 0 {
        c
    } else {
        counter_after(c + 1, (sections - 1) as nat)
    }
}

/// No update is ever lost: `m` serialized increment sections add exactly
/// `m`.
pub proof fn lemma_counter_after(c: nat, m: nat)
    ensures
        counter_after(c, m) == c + m,
    decreases m,
{
    if m > 0 {
        lemma_counter_after((c + 1) as nat, (m - 1) as nat);
    }
}

/// How many critical sections a group of threads performs in total, given
/// each thread's count.
pub open spec fn total_sections(counts: Seq<nat>) -> nat
    decreases counts.len(),
{
    if counts.len() == 0 {
        0
    } else {
        counts[0] + total_sections(counts.drop_first())
    }
}

/// For all concurrent N-thread increment loops of length K under the
/// mutex: however the threads interleave, the lock serializes their
/// critical sections into some order, each section increments exactly once,
/// and the final counter equals N·K.
pub proof fn lemma_concurrent_increments(counts: Seq<nat>, k: nat)
    requires
        forall|i: int| 0 <= i < counts.len() ==> counts[i] == k,
    ensures
        total_sections(counts) == counts.len() * k,
        counter_after(0, total_sections(counts)) == counts.len() * k,
    decreases counts.len(),
{
    if counts.len() > 0 {
        let rest = counts.drop_first();
        assert(forall|i: int| 0 <= i < rest.len() ==> rest[i] == counts[i + 1]);
        lemma_concurrent_increments(rest, k);
        let n = counts.len() as int;
        assert(k + (n - 1) * k == n * k) by (nonlinear_arith)
            requires
                n >= 1,
        ;
    }
    lemma_counter_after(0, total_sections(counts));
}

} // verus!

//! The PI mutex: fast-path atomic acquire, slow-path acquire through
//! `FUTEX_LOCK_PI`, owner-death detection and recovery, unlock with
//! robust-list unlink, and try-lock with its owner-died escalation.
//!
//! The kernel's side of the protocol — granting ownership in the slow path,
//! transferring the lock to a waiter on unlock, marking an abandoned word on
//! owner exit — reaches this model as plain values: the word a syscall left
//! behind, or the errno it failed with.  Each operation states exactly what
//! the protocol does with every such value, and a small event machine over
//! the word proves the sequence laws: an uncontended unlock always leaves
//! the word free, an owner's death marks the lock for exactly the next
//! acquirer, and a recovered lock stays clean until another owner dies.

use vstd::prelude::*;
use vstd::pervasive::unreached;

use crate::futex::AosMutex;
use crate::futex::LockError;
use crate::futex::LockOutcome;
use crate::futex::LockPiReply;
use crate::futex::TimeSpec;
use crate::futex::UnlockReply;
use crate::futex::FUTEX_OWNER_DIED;
use crate::futex::FUTEX_WAITERS;
use crate::futex::clear_owner_died;
use crate::futex::decisive;
use crate::futex::first_decisive;
use crate::futex::lemma_first_decisive;
use crate::futex::lemma_word_encoding;
use crate::futex::owner_bits;
use crate::futex::owner_died;
use crate::futex::valid_tid;
use crate::futex::word_after_owner_exit;
use crate::futex::word_clear_owner_died;
use crate::futex::word_owner;
use crate::futex::word_owner_died;
use crate::robust_list::ThreadRobustList;
use crate::robust_list::robust_add;
use crate::robust_list::robust_remove;

verus! {

/// The mutex primitive over one shared control block.
pub struct PiMutex(pub AosMutex);

/// What one `try_lock` attempt reported.
#[derive(Clone, Copy, Debug, PartialEq, Eq, Structural)]
pub enum TryLockOutcome {
    /// Someone else holds the lock; nothing was changed.
    NotAcquired,
    /// The lock is now held by the caller, cleanly or after an owner died.
    Acquired(LockOutcome),
}

/// A `FUTEX_LOCK_PI` reply the protocol can be handed: a granted word
/// carries the caller's tid (the kernel wrote it), and a timeout only
/// happens on a timed call.
pub open spec fn lock_reply_wf(r: LockPiReply, tid: u32, timed: bool) -> bool {
    &&& (r matches LockPiReply::Granted { word } ==> owner_bits(word) == tid)
    &&& (r is TimedOut ==> timed)
}

/// An `FUTEX_UNLOCK_PI` result the kernel can produce: the word afterwards
/// is free, or owned by a waiter — never by the releasing thread, and never
/// marked dead by a release.
pub open spec fn unlock_reply_wf(t: UnlockReply, tid: u32) -> bool {
    &&& owner_bits(t.word) != tid
    &&& !owner_died(t.word)
}

/// The outcome a successful acquire reports for the word the kernel
/// granted: owner-died exactly when the mark was set on it.
pub open spec fn acquire_outcome(w: u32) -> LockOutcome {
    if owner_died(w) {
        LockOutcome::OwnerDied
    } else {
        LockOutcome::Clean
    }
}

/// The state change of a successful acquire of granted word `w`: the mutex
/// word holds `w` with the owner-died mark cleared, the mutex's link word
/// was written to the old head-next before publication, and the node now
/// heads the thread's robust list.
pub open spec fn acquire_updates(
    pre: PiMutex,
    post: PiMutex,
    pre_th: ThreadRobustList,
    post_th: ThreadRobustList,
    node_addr: usize,
    w: u32,
) -> bool {
    &&& post.0.futex == clear_owner_died(w)
    &&& post.0.next == pre_th.head.list.next
    &&& post.0.previous == pre.0.previous
    &&& post_th.owned() == seq![node_addr] + pre_th.owned()
    &&& post_th.wf()
    &&& post_th.head.head_addr == pre_th.head.head_addr
    &&& post_th.head.futex_offset == pre_th.head.futex_offset
}

/// The whole acquire policy, as a relation between the states before and
/// after, the kernel's replies, and the result:
/// - a free word is taken on the fast path, cleanly;
/// - otherwise the first reply the caller acts on decides: a grant acquires
///   (reporting owner-died if the granted word carried the mark), a timeout
///   or an interrupt (under signal-fail semantics) or any other errno fails
///   with the matching error and changes nothing.
pub open spec fn lock_inner_post(
    pre: PiMutex,
    post: PiMutex,
    pre_th: ThreadRobustList,
    post_th: ThreadRobustList,
    tid: u32,
    node_addr: usize,
    signals_fail: bool,
    replies: Seq<LockPiReply>,
    r: Result<LockOutcome, LockError>,
) -> bool {
    if pre.0.futex == 0 {
        &&& r == Ok::<LockOutcome, LockError>(LockOutcome::Clean)
        &&& acquire_updates(pre, post, pre_th, post_th, node_addr, tid)
    } else {
        let i = first_decisive(replies, signals_fail);
        &&& (replies[i] matches LockPiReply::Granted { word } ==> r == Ok::<
            LockOutcome,
            LockError,
        >(acquire_outcome(word)) && acquire_updates(pre, post, pre_th, post_th, node_addr, word))
        &&& (replies[i] is TimedOut ==> r == Err::<LockOutcome, LockError>(LockError::TimedOut)
            && post == pre && post_th == pre_th)
        &&& (replies[i] is Interrupted ==> r == Err::<LockOutcome, LockError>(
            LockError::Interrupted,
        ) && post == pre && post_th == pre_th)
        &&& (replies[i] matches LockPiReply::Failed { errno } ==> r == Err::<
            LockOutcome,
            LockError,
        >(LockError::Kernel(errno)) && post == pre && post_th == pre_th)
    }
}

/// What every caller of an acquire must bring: a well-formed thread list, a
/// valid tid not already owning this mutex (the lock is not reentrant), a
/// fresh link-word address, and replies consistent with the kernel.
pub open spec fn lock_pre(
    pre: PiMutex,
    pre_th: ThreadRobustList,
    tid: u32,
    node_addr: usize,
) -> bool {
    &&& pre_th.wf()
    &&& valid_tid(tid)
    &&& !pre_th.owned().contains(node_addr)
    &&& node_addr != pre_th.head.head_addr
    &&& node_addr != 0
    &&& owner_bits(pre.0.futex) != tid
}

impl PiMutex {
    /// A fresh mutex over a zero-initialized control block: free, unowned.
    pub fn new() -> (r: Self)
        ensures
            r.0.futex == 0,
            r.0.next == 0,
            r.0.previous == 0,
            owner_bits(r.0.futex) == 0,
            !owner_died(r.0.futex),
    {
        let r = PiMutex(AosMutex::default());
        proof {
            lemma_word_encoding(0, 1);
        }
        r
    }

    /// The current futex word, as a relaxed load would see it.
    pub fn futex_word(&self) -> (w: u32)
        ensures
            w == self.0.futex,
    {
        self.0.futex
    }

    /// Whether any thread owns the mutex (or an abandoned mark lingers on
    /// it); a relaxed observation, stale the moment it returns.
    pub fn is_locked(&self) -> (r: bool)
        ensures
            r == (self.0.futex != 0),
    {
        self.0.futex != 0
    }

    /// Whether the calling thread owns the mutex.  Only the tid bits are
    /// compared, so the answer stays right even while the kernel has the
    /// waiters bit set on the word.
    pub fn is_locked_by_me(&self, tid: u32) -> (r: bool)
        requires
            valid_tid(tid),
        ensures
            r == (owner_bits(self.0.futex) == tid),
    {
        word_owner(self.0.futex) == tid
    }

    /// Acquires the mutex: the caller's tid goes into the word, and the
    /// mutex joins the caller's robust list.  A signal delivered during the
    /// slow path is retried transparently.  An `Ok(OwnerDied)` result hands
    /// the caller the lock with the warning that the previous owner
    /// terminated mid-critical-section.
    pub fn lock(
        &mut self,
        th: &mut ThreadRobustList,
        tid: u32,
        node_addr: usize,
        replies: &Vec<LockPiReply>,
    ) -> (r: Result<LockOutcome, LockError>)
        requires
            lock_pre(*old(self), *old(th), tid, node_addr),
            forall|i: int|
                0 <= i < replies@.len() ==> lock_reply_wf(#[trigger] replies@[i], tid, false),
            old(self).0.futex != 0 ==> exists|i: int|
                0 <= i < replies@.len() && decisive(#[trigger] replies@[i], false),
        ensures
            lock_inner_post(
                *old(self),
                *final(self),
                *old(th),
                *final(th),
                tid,
                node_addr,
                false,
                replies@,
                r,
            ),
            r is Ok ==> owner_bits(final(self).0.futex) == tid && final(th).owned().contains(
                node_addr,
            ),
            r is Err ==> *final(self) == *old(self) && *final(th) == *old(th),
    {
        self.lock_inner(th, tid, node_addr, None, false, replies)
    }

    /// Acquires with a deadline: like `lock`, but the kernel may answer
    /// `TimedOut`, which is surfaced without any state left behind — no
    /// robust-list entry, no bit toggled on the word.
    pub fn lock_timeout(
        &mut self,
        th: &mut ThreadRobustList,
        tid: u32,
        node_addr: usize,
        dur: TimeSpec,
        replies: &Vec<LockPiReply>,
    ) -> (r: Result<LockOutcome, LockError>)
        requires
            lock_pre(*old(self), *old(th), tid, node_addr),
            forall|i: int|
                0 <= i < replies@.len() ==> lock_reply_wf(#[trigger] replies@[i], tid, true),
            old(self).0.futex != 0 ==> exists|i: int|
                0 <= i < replies@.len() && decisive(#[trigger] replies@[i], false),
        ensures
            lock_inner_post(
                *old(self),
                *final(self),
                *old(th),
                *final(th),
                tid,
                node_addr,
                false,
                replies@,
                r,
            ),
            r is Ok ==> owner_bits(final(self).0.futex) == tid && final(th).owned().contains(
                node_addr,
            ),
            r is Err ==> *final(self) == *old(self) && *final(th) == *old(th),
    {
        self.lock_inner(th, tid, node_addr, Some(dur), false, replies)
    }

    /// The shared acquire path.  Fast path first: a compare-and-swap of the
    /// word from 0 to the caller's tid (acquire ordering), then the
    /// robust-list insertion.  Otherwise `FUTEX_LOCK_PI` repeatedly, acting
    /// on each reply per the retry policy; on a grant the kernel has
    /// already written the caller's tid into the word (possibly with the
    /// owner-died mark, which is cleared before returning, and reported).
    #[verifier::loop_isolation(false)]
    pub fn lock_inner(
        &mut self,
        th: &mut ThreadRobustList,
        tid: u32,
        node_addr: usize,
        dur: Option<TimeSpec>,
        signals_fail: bool,
        replies: &Vec<LockPiReply>,
    ) -> (r: Result<LockOutcome, LockError>)
        requires
            lock_pre(*old(self), *old(th), tid, node_addr),
            forall|i: int|
                0 <= i < replies@.len() ==> lock_reply_wf(
                    #[trigger] replies@[i],
                    tid,
                    dur is Some,
                ),
            old(self).0.futex != 0 ==> exists|i: int|
                0 <= i < replies@.len() && decisive(#[trigger] replies@[i], signals_fail),
        ensures
            lock_inner_post(
                *old(self),
                *final(self),
                *old(th),
                *final(th),
                tid,
                node_addr,
                signals_fail,
                replies@,
                r,
            ),
            r is Ok ==> owner_bits(final(self).0.futex) == tid && final(th).owned().contains(
                node_addr,
            ),
            r is Err ==> *final(self) == *old(self) && *final(th) == *old(th),
    {
        proof {
            lemma_word_encoding(self.0.futex, tid);
        }
        if self.0.futex == 0 {
            // Fast path: CAS 0 -> tid, acquire ordering on success.
            self.0.futex = tid;
            let link = robust_add(th, node_addr);
            self.0.next = link;
            assert(th.owned()[0] == node_addr);
            return Ok(LockOutcome::Clean);
        }
        let n = replies.len();
        let mut i: usize = 0;
        while i < n
            invariant
                i <= n,
                *self == *old(self),
                *th == *old(th),
                forall|j: int| 0 <= j < i ==> !decisive(#[trigger] replies@[j], signals_fail),
            decreases n - i,
        {
            match &replies[i] {
                LockPiReply::Granted { word } => {
                    let w = *word;
                    proof {
                        lemma_first_decisive(replies@, signals_fail, i as int);
                        lemma_word_encoding(w, tid);
                    }
                    let died = word_owner_died(w);
                    self.0.futex = word_clear_owner_died(w);
                    let link = robust_add(th, node_addr);
                    self.0.next = link;
                    assert(th.owned()[0] == node_addr);
                    return Ok(
                        if died {
                            LockOutcome::OwnerDied
                        } else {
                            LockOutcome::Clean
                        },
                    );
                },
                LockPiReply::TimedOut => {
                    proof {
                        lemma_first_decisive(replies@, signals_fail, i as int);
                    }
                    return Err(LockError::TimedOut);
                },
                LockPiReply::Interrupted => {
                    if signals_fail {
                        proof {
                            lemma_first_decisive(replies@, signals_fail, i as int);
                        }
                        return Err(LockError::Interrupted);
                    }
                    // Transparent retry: issue FUTEX_LOCK_PI again.
                    i += 1;
                },
                LockPiReply::Failed { errno } => {
                    proof {
                        lemma_first_decisive(replies@, signals_fail, i as int);
                    }
                    return Err(LockError::Kernel(*errno));
                },
            }
        }
        proof {
            let j = choose|j: int|
                0 <= j < replies@.len() && decisive(#[trigger] replies@[j], signals_fail);
            assert(!decisive(replies@[j], signals_fail));
        }
        unreached()
    }

    /// One try at the lock: a single CAS from free to the caller's tid.  If
    /// the word shows an abandoned lock, escalate to `FUTEX_LOCK_PI` — only
    /// the kernel may legally turn an owner-died word into a clean owned
    /// one.  Any other occupied word reports `NotAcquired` untouched.
    pub fn try_lock(
        &mut self,
        th: &mut ThreadRobustList,
        tid: u32,
        node_addr: usize,
        escalate: &LockPiReply,
    ) -> (r: Result<TryLockOutcome, LockError>)
        requires
            lock_pre(*old(self), *old(th), tid, node_addr),
            owner_died(old(self).0.futex) ==> lock_reply_wf(*escalate, tid, false),
        ensures
            old(self).0.futex == 0 ==> r == Ok::<TryLockOutcome, LockError>(
                TryLockOutcome::Acquired(LockOutcome::Clean),
            ) && acquire_updates(*old(self), *final(self), *old(th), *final(th), node_addr, tid),
            old(self).0.futex != 0 && !owner_died(old(self).0.futex) ==> r == Ok::<
                TryLockOutcome,
                LockError,
            >(TryLockOutcome::NotAcquired) && *final(self) == *old(self) && *final(th) == *old(th),
            owner_died(old(self).0.futex) ==> {
                &&& ((*escalate) matches LockPiReply::Granted { word } ==> r == Ok::<
                    TryLockOutcome,
                    LockError,
                >(TryLockOutcome::Acquired(acquire_outcome(word))) && acquire_updates(
                    *old(self),
                    *final(self),
                    *old(th),
                    *final(th),
                    node_addr,
                    word,
                ))
                &&& (escalate is TimedOut ==> r == Err::<TryLockOutcome, LockError>(
                    LockError::TimedOut,
                ) && *final(self) == *old(self) && *final(th) == *old(th))
                &&& (escalate is Interrupted ==> r == Err::<TryLockOutcome, LockError>(
                    LockError::Interrupted,
                ) && *final(self) == *old(self) && *final(th) == *old(th))
                &&& ((*escalate) matches LockPiReply::Failed { errno } ==> r == Err::<
                    TryLockOutcome,
                    LockError,
                >(LockError::Kernel(errno)) && *final(self) == *old(self) && *final(th) == *old(
                    th,
                ))
            },
    {
        proof {
            lemma_word_encoding(self.0.futex, tid);
        }
        if self.0.futex == 0 {
            // CAS 0 -> tid, acquire-release ordering.
            self.0.futex = tid;
            let link = robust_add(th, node_addr);
            self.0.next = link;
            return Ok(TryLockOutcome::Acquired(LockOutcome::Clean));
        }
        let observed = self.0.futex;
        if word_owner_died(observed) {
            // The previous owner died with no one to hand the lock to; ask
            // the kernel to grant it.
            match escalate {
                LockPiReply::Granted { word } => {
                    let w = *word;
                    proof {
                        lemma_word_encoding(w, tid);
                    }
                    let died = word_owner_died(w);
                    self.0.futex = word_clear_owner_died(w);
                    let link = robust_add(th, node_addr);
                    self.0.next = link;
                    Ok(
                        TryLockOutcome::Acquired(
                            if died {
                                LockOutcome::OwnerDied
                            } else {
                                LockOutcome::Clean
                            },
                        ),
                    )
                },
                LockPiReply::TimedOut => Err(LockError::TimedOut),
                LockPiReply::Interrupted => Err(LockError::Interrupted),
                LockPiReply::Failed { errno } => Err(LockError::Kernel(*errno)),
            }
        } else {
            Ok(TryLockOutcome::NotAcquired)
        }
    }

    /// Releases the mutex.  The robust-list unlink comes first — if the
    /// thread died between the word release and a later unlink, the kernel
    /// would walk the already-released mutex and spuriously mark a new
    /// owner's acquisition as dirty.  Then a CAS from the bare tid to 0
    /// (release ordering); if the word carries more than the tid, waiters
    /// are parked and `FUTEX_UNLOCK_PI` transfers ownership to the top one.
    pub fn unlock(
        &mut self,
        th: &mut ThreadRobustList,
        tid: u32,
        node_addr: usize,
        transfer: &UnlockReply,
    )
        requires
            old(th).wf(),
            valid_tid(tid),
            owner_bits(old(self).0.futex) == tid,
            old(self).0.futex != tid ==> unlock_reply_wf(*transfer, tid),
        ensures
            final(th).wf(),
            final(th).owned() == old(th).owned().remove_value(node_addr),
            !final(th).owned().contains(node_addr),
            old(th).owned().contains(node_addr) ==> final(th).owned().len() == old(
                th,
            ).owned().len() - 1,
            final(th).head.head_addr == old(th).head.head_addr,
            final(th).head.futex_offset == old(th).head.futex_offset,
            old(self).0.futex == tid ==> final(self).0.futex == 0 && owner_bits(
                final(self).0.futex,
            ) == 0,
            old(self).0.futex != tid ==> final(self).0.futex == transfer.word,
            owner_bits(final(self).0.futex) != tid,
            final(self).0.next == old(self).0.next,
            final(self).0.previous == old(self).0.previous,
    {
        // Unlink from the robust list first (mandatory order).
        robust_remove(th, node_addr);
        if self.0.futex == tid {
            // CAS tid -> 0, release ordering: no waiters, the kernel need
            // not be involved.
            self.0.futex = 0;
            proof {
                lemma_word_encoding(0, tid);
            }
        } else {
            // FUTEX_UNLOCK_PI: the kernel wakes and boosts the
            // highest-priority waiter, if any, and writes the new word.
            self.0.futex = transfer.word;
        }
    }

    /// The kernel's robust-list walk at thread exit, as it acts on one
    /// abandoned mutex: the tid bits are cleared, the waiters bit is kept,
    /// and the owner-died mark is set (and one waiter, if any, is woken
    /// with ownership).
    pub fn kernel_owner_exit(&mut self)
        requires
            owner_bits(old(self).0.futex) != 0,
        ensures
            final(self).0.futex == word_after_owner_exit(old(self).0.futex),
            owner_bits(final(self).0.futex) == 0,
            owner_died(final(self).0.futex),
            final(self).0.next == old(self).0.next,
            final(self).0.previous == old(self).0.previous,
    {
        proof {
            lemma_word_encoding(self.0.futex, 1);
        }
        self.0.futex = (self.0.futex & FUTEX_WAITERS) | FUTEX_OWNER_DIED;
    }
}

// ---------------------------------------------------------------------------
// The word event machine: the uncontended transitions of the futex word, as
// a sequence of events, for stating and proving the laws that span several
// operations.
// ---------------------------------------------------------------------------

/// One uncontended transition of the futex word: an acquire by `tid` (fast
/// path when free, kernel grant-and-clear when abandoned), an uncontended
/// release by the owner, or the owner exiting without releasing.
pub enum WordEvent {
    Acquire(u32),
    Release(u32),
    OwnerExit,
}

/// When an event can happen to word `w`.
pub open spec fn event_allowed(w: u32, e: WordEvent) -> bool {
    match e {
        WordEvent::Acquire(t) => valid_tid(t) && owner_bits(w) == 0,
        WordEvent::Release(t) => valid_tid(t) && w == t,
        WordEvent::OwnerExit => owner_bits(w) != 0,
    }
}

/// The word after an event: an acquire leaves the bare tid (the acquirer
/// clears the owner-died mark before anything else), an uncontended release
/// leaves 0, and an owner exit leaves the kernel's abandoned-word rewrite.
pub open spec fn event_word(w: u32, e: WordEvent) -> u32 {
    match e {
        WordEvent::Acquire(t) => t,
        WordEvent::Release(_) => 0,
        WordEvent::OwnerExit => word_after_owner_exit(w),
    }
}

/// Whether an acquire happening at word `w` reports the previous owner's
/// death to its caller.
pub open spec fn acquire_sees_died(w: u32, e: WordEvent) -> bool {
    e is Acquire && owner_died(w)
}

/// Every event of the sequence is allowed at the word it meets.
pub open spec fn run_allowed(w: u32, es: Seq<WordEvent>) -> bool
    decreases es.len(),
{
    es.len() == 0 || (event_allowed(w, es[0]) && run_allowed(event_word(w, es[0]), es.drop_first()))
}

/// The word after the whole sequence.
pub open spec fn run_word(w: u32, es: Seq<WordEvent>) -> u32
    decreases es.len(),
{
    if es.len() == 0 {
        w
    } else {
        run_word(event_word(w, es[0]), es.drop_first())
    }
}

/// `n` lock/unlock rounds by a single thread.
pub open spec fn lock_unlock_cycle(t: u32, n: nat) -> Seq<WordEvent>
    decreases n,
{
    if n == 0 {
        Seq::empty()
    } else {
        seq![WordEvent::Acquire(t), WordEvent::Release(t)] + lock_unlock_cycle(t, (n - 1) as nat)
    }
}

/// For all single-threaded sequences of lock/unlock, the whole sequence is
/// allowed and after each unlock the futex word is 0.  (Every prefix ending
/// in an unlock is `lock_unlock_cycle(t, k)` for some `k`, so the word
/// after each unlock is the ensured `run_word`.)
pub proof fn lemma_single_thread_release_zeroes(t: u32, n: nat)
    requires
        valid_tid(t),
    ensures
        run_allowed(0, lock_unlock_cycle(t, n)),
        run_word(0, lock_unlock_cycle(t, n)) == 0,
    decreases n,
{
    lemma_word_encoding(0, t);
    if n > 0 {
        let es = lock_unlock_cycle(t, n);
        let rest = lock_unlock_cycle(t, (n - 1) as nat);
        let es1 = es.drop_first();
        lemma_single_thread_release_zeroes(t, (n - 1) as nat);
        assert(es == seq![WordEvent::Acquire(t), WordEvent::Release(t)] + rest);
        assert(es[0] == WordEvent::Acquire(t));
        assert(es1 =~= seq![WordEvent::Release(t)] + rest);
        assert(es1[0] == WordEvent::Release(t));
        assert(es1.drop_first() =~= rest);
        assert(event_allowed(0, WordEvent::Acquire(t)));
        assert(event_word(0, es[0]) == t);
        assert(event_allowed(t, WordEvent::Release(t)));
        assert(event_word(t, WordEvent::Release(t)) == 0);
        assert(run_allowed(t, es1) == (event_allowed(t, es1[0]) && run_allowed(0, rest)));
        assert(run_word(t, es1) == run_word(0, rest));
        assert(run_allowed(0, es) == (event_allowed(0, es[0]) && run_allowed(t, es1)));
        assert(run_word(0, es) == run_word(t, es1));
    }
}

/// For all thread lifetimes in which a thread exits while holding the
/// mutex: afterwards the only event the word admits is an acquire, and any
/// such next acquire observes the owner-died mark.
pub proof fn lemma_owner_exit_marks_next_acquire(w: u32)
    requires
        owner_bits(w) != 0,
    ensures
        forall|e: WordEvent| event_allowed(word_after_owner_exit(w), e) ==> e is Acquire,
        forall|e: WordEvent|
            event_allowed(word_after_owner_exit(w), e) ==> acquire_sees_died(
                word_after_owner_exit(w),
                e,
            ),
{
    lemma_word_encoding(w, 1);
    assert forall|e: WordEvent| event_allowed(word_after_owner_exit(w), e) implies e
        is Acquire by {
        let wd = word_after_owner_exit(w);
        match e {
            WordEvent::Acquire(_) => {},
            WordEvent::Release(t) => {
                assert(valid_tid(t) && wd == t);
                lemma_word_encoding(wd, t);
            },
            WordEvent::OwnerExit => {},
        }
    }
}

/// As long as no owner exits, a word that carries no owner-died mark never
/// shows one: every later acquire in the run sees a clean lock.
pub proof fn lemma_no_exit_stays_clean(w: u32, es: Seq<WordEvent>)
    requires
        !owner_died(w),
        run_allowed(w, es),
        forall|i: int| 0 <= i < es.len() ==> !(#[trigger] es[i] is OwnerExit),
    ensures
        !owner_died(run_word(w, es)),
        forall|k: int|
            0 <= k < es.len() ==> !acquire_sees_died(run_word(w, es.take(k)), #[trigger] es[k]),
    decreases es.len(),
{
    if es.len() > 0 {
        let w1 = event_word(w, es[0]);
        match es[0] {
            WordEvent::Acquire(t) => {
                lemma_word_encoding(w, t);
            },
            WordEvent::Release(t) => {
                lemma_word_encoding(0, t);
            },
            WordEvent::OwnerExit => {},
        }
        assert(!owner_died(w1));
        lemma_no_exit_stays_clean(w1, es.drop_first());
        assert forall|k: int| 0 <= k < es.len() implies !acquire_sees_died(
            run_word(w, es.take(k)),
            #[trigger] es[k],
        ) by {
            if k == 0 {
                assert(es.take(0) =~= Seq::<WordEvent>::empty());
            } else {
                assert(es.take(k).drop_first() =~= es.drop_first().take(k - 1));
                assert(run_word(w, es.take(k)) == run_word(w1, es.drop_first().take(k - 1)));
                assert(es.drop_first()[k - 1] == es[k]);
            }
        }
    }
}

/// After an acquirer clears the owner-died mark, subsequent acquirers see a
/// clean lock unless another owner dies: the recovering acquire leaves the
/// bare tid on the word, and from there any exit-free run stays clean.
pub proof fn lemma_clean_after_recovery(w: u32, t: u32, es: Seq<WordEvent>)
    requires
        event_allowed(w, WordEvent::Acquire(t)),
        run_allowed(t, es),
        forall|i: int| 0 <= i < es.len() ==> !(#[trigger] es[i] is OwnerExit),
    ensures
        forall|k: int|
            0 <= k < es.len() ==> !acquire_sees_died(run_word(t, es.take(k)), #[trigger] es[k]),
{
    lemma_word_encoding(w, t);
    lemma_no_exit_stays_clean(t, es);
}

} // verus!

//! The PI condition variable: a generation counter, with the kernel's
//! requeue-PI operations carrying waiters from the condvar word to the
//! mutex word without a thundering herd.
//!
//! A waiter snapshots the generation, releases the mutex, and suspends on
//! the condvar word; the kernel only parks it if the generation still
//! equals the snapshot, which closes the lost-wakeup window.  A notifier
//! bumps the generation and asks the kernel to wake one waiter and requeue
//! the rest directly onto the mutex's PI queue, so the kernel hands the
//! lock to them one at a time with priority inheritance preserved.  A woken
//! waiter owns the mutex the moment it returns.

use vstd::prelude::*;

use vstd::seq_lib::lemma_multiset_commutative;

use crate::futex::LockError;
use crate::futex::LockOutcome;
use crate::futex::TimeSpec;
use crate::futex::UnlockReply;
use crate::futex::clear_owner_died;
use crate::futex::lemma_word_encoding;
use crate::futex::owner_bits;
use crate::futex::valid_tid;
use crate::futex::word_clear_owner_died;
use crate::futex::word_owner_died;
use crate::mutex::PiMutex;
use crate::mutex::acquire_outcome;
use crate::mutex::unlock_reply_wf;
use crate::robust_list::ThreadRobustList;
use crate::robust_list::robust_add;

verus! {

/// A condition variable: a single 32-bit generation counter in shared
/// memory.  Wrap-around is benign — the kernel only ever compares it for
/// equality against a snapshot taken before suspension.
pub struct PiCondvar(pub u32);

/// The generation counter after one bump, wrapping.
pub open spec fn gen_next(g: u32) -> u32 {
    if g == u32::MAX {
        0
    } else {
        (g + 1) as u32
    }
}

/// The arguments of one `FUTEX_CMP_REQUEUE_PI` call: how many waiters to
/// wake, how many to requeue onto the mutex, and the generation the kernel
/// must still observe on the condvar word.
#[derive(Clone, Copy, Debug, PartialEq, Eq, Structural)]
pub struct NotifyCall {
    pub wake_n: i32,
    pub requeue_n: i32,
    pub expected: u32,
}

/// What one `FUTEX_WAIT_REQUEUE_PI` syscall came back with.  `Woken` means
/// the caller was transferred to the mutex's PI queue and the kernel handed
/// it ownership, leaving the carried word.
#[derive(Clone, Copy, Debug, PartialEq, Eq, Structural)]
pub enum WaitReply {
    Woken { word: u32 },
    TimedOut,
    Interrupted,
    Failed { errno: i32 },
}

/// A `FUTEX_WAIT_REQUEUE_PI` reply the protocol can be handed: a wake hands
/// over a word owned by the caller, and a timeout only happens on a timed
/// wait.
pub open spec fn wait_reply_wf(r: WaitReply, tid: u32, timed: bool) -> bool {
    &&& (r matches WaitReply::Woken { word } ==> owner_bits(word) == tid)
    &&& (r is TimedOut ==> timed)
}

impl PiCondvar {
    /// A fresh condition variable at generation zero — the state a
    /// zero-initialized shared region presents.
    pub fn new() -> (r: Self)
        ensures
            r.0 == 0,
    {
        PiCondvar(0)
    }

    /// The current generation.
    pub fn generation(&self) -> (g: u32)
        ensures
            g == self.0,
    {
        self.0
    }

    /// Bumps the generation (sequentially consistent fetch-and-add in the
    /// running system) and returns the `FUTEX_CMP_REQUEUE_PI` arguments:
    /// wake one waiter, requeue `requeue` more onto the mutex, with the
    /// post-bump generation as the value the kernel must still observe.
    fn wake(&mut self, requeue: i32) -> (c: NotifyCall)
        ensures
            final(self).0 == gen_next(old(self).0),
            c == (NotifyCall { wake_n: 1, requeue_n: requeue, expected: final(self).0 }),
    {
        if self.0 == u32::MAX {
            self.0 = 0;
        } else {
            self.0 = self.0 + 1;
        }
        NotifyCall { wake_n: 1, requeue_n: requeue, expected: self.0 }
    }

    /// Wakes exactly one waiter: bump the generation, then wake 1, requeue
    /// none.
    pub fn notify_one(&mut self) -> (c: NotifyCall)
        ensures
            final(self).0 == gen_next(old(self).0),
            c == (NotifyCall { wake_n: 1, requeue_n: 0, expected: final(self).0 }),
    {
        self.wake(0)
    }

    /// Wakes all waiters without a thundering herd: bump the generation,
    /// wake one, and requeue every other waiter onto the mutex's PI queue.
    pub fn notify_all(&mut self) -> (c: NotifyCall)
        ensures
            final(self).0 == gen_next(old(self).0),
            c == (NotifyCall { wake_n: 1, requeue_n: i32::MAX, expected: final(self).0 }),
    {
        self.wake(i32::MAX)
    }

    /// Waits on the condition: releases the mutex (robust unlink first, as
    /// every release), suspends on the condvar word, and — on a wake — owns
    /// the mutex again, the kernel having carried the caller over to the
    /// mutex's PI queue.  An abandoned mark on the reacquired word is
    /// cleared and reported, as on any acquire.  On timeout or interrupt
    /// the caller does NOT hold the mutex and no robust-list entry remains.
    pub fn wait_inner(
        &self,
        m: &mut PiMutex,
        th: &mut ThreadRobustList,
        tid: u32,
        node_addr: usize,
        dur: Option<TimeSpec>,
        transfer: &UnlockReply,
        reply: &WaitReply,
    ) -> (r: Result<LockOutcome, LockError>)
        requires
            old(th).wf(),
            valid_tid(tid),
            owner_bits(old(m).0.futex) == tid,
            old(th).owned().contains(node_addr),
            old(m).0.futex != tid ==> unlock_reply_wf(*transfer, tid),
            wait_reply_wf(*reply, tid, dur is Some),
        ensures
            final(th).wf(),
            final(th).head.head_addr == old(th).head.head_addr,
            final(th).head.futex_offset == old(th).head.futex_offset,
            (*reply) matches WaitReply::Woken { word } ==> {
                &&& r == Ok::<LockOutcome, LockError>(acquire_outcome(word))
                &&& final(m).0.futex == clear_owner_died(word)
                &&& owner_bits(final(m).0.futex) == tid
                &&& final(th).owned() == seq![node_addr] + old(th).owned().remove_value(node_addr)
            },
            !(reply is Woken) ==> {
                &&& final(m).0.futex == (if old(m).0.futex == tid {
                    0u32
                } else {
                    transfer.word
                })
                &&& owner_bits(final(m).0.futex) != tid
                &&& final(th).owned() == old(th).owned().remove_value(node_addr)
                &&& !final(th).owned().contains(node_addr)
            },
            reply is TimedOut ==> r == Err::<LockOutcome, LockError>(LockError::TimedOut),
            reply is Interrupted ==> r == Err::<LockOutcome, LockError>(LockError::Interrupted),
            (*reply) matches WaitReply::Failed { errno } ==> r == Err::<LockOutcome, LockError>(
                LockError::Kernel(errno),
            ),
            r is Ok ==> owner_bits(final(m).0.futex) == tid,
            r is Err ==> owner_bits(final(m).0.futex) != tid,
    {
        proof {
            // The node the caller owns is on its list, so it is a usable
            // address: nonzero and not the head's own.
            let i = choose|i: int|
                0 <= i < old(th).owned().len() && old(th).owned()[i] == node_addr;
            assert(old(th).nodes@[i].addr == node_addr);
        }
        // Snapshot of the generation (sequentially consistent load in the
        // running system); the kernel compares it against the condvar word
        // before parking the caller, which is `reply`'s business here.
        let _start = self.0;
        // Release the mutex before sleeping.
        m.unlock(th, tid, node_addr, transfer);
        match reply {
            WaitReply::Woken { word } => {
                // Transferred to the mutex queue and granted ownership by
                // the kernel; clear an abandoned mark as any acquirer must.
                let w = *word;
                proof {
                    lemma_word_encoding(w, tid);
                }
                let died = word_owner_died(w);
                m.0.futex = word_clear_owner_died(w);
                let link = robust_add(th, node_addr);
                m.0.next = link;
                Ok(
                    if died {
                        LockOutcome::OwnerDied
                    } else {
                        LockOutcome::Clean
                    },
                )
            },
            WaitReply::TimedOut => Err(LockError::TimedOut),
            WaitReply::Interrupted => Err(LockError::Interrupted),
            WaitReply::Failed { errno } => Err(LockError::Kernel(*errno)),
        }
    }

    /// Waits until notified; see `wait_inner`.
    pub fn wait(
        &self,
        m: &mut PiMutex,
        th: &mut ThreadRobustList,
        tid: u32,
        node_addr: usize,
        transfer: &UnlockReply,
        reply: &WaitReply,
    ) -> (r: Result<LockOutcome, LockError>)
        requires
            old(th).wf(),
            valid_tid(tid),
            owner_bits(old(m).0.futex) == tid,
            old(th).owned().contains(node_addr),
            old(m).0.futex != tid ==> unlock_reply_wf(*transfer, tid),
            wait_reply_wf(*reply, tid, false),
        ensures
            final(th).wf(),
            (*reply) matches WaitReply::Woken { word } ==> r == Ok::<LockOutcome, LockError>(
                acquire_outcome(word),
            ) && final(m).0.futex == clear_owner_died(word) && final(th).owned() == seq![node_addr]
                + old(th).owned().remove_value(node_addr),
            reply is Interrupted ==> r == Err::<LockOutcome, LockError>(LockError::Interrupted),
            (*reply) matches WaitReply::Failed { errno } ==> r == Err::<LockOutcome, LockError>(
                LockError::Kernel(errno),
            ),
            r is Ok ==> owner_bits(final(m).0.futex) == tid,
            r is Err ==> owner_bits(final(m).0.futex) != tid && final(th).owned() == old(
                th,
            ).owned().remove_value(node_addr),
    {
        self.wait_inner(m, th, tid, node_addr, None, transfer, reply)
    }

    /// Waits until notified or the timeout elapses; see `wait_inner`.
    pub fn wait_timeout(
        &self,
        m: &mut PiMutex,
        th: &mut ThreadRobustList,
        tid: u32,
        node_addr: usize,
        dur: TimeSpec,
        transfer: &UnlockReply,
        reply: &WaitReply,
    ) -> (r: Result<LockOutcome, LockError>)
        requires
            old(th).wf(),
            valid_tid(tid),
            owner_bits(old(m).0.futex) == tid,
            old(th).owned().contains(node_addr),
            old(m).0.futex != tid ==> unlock_reply_wf(*transfer, tid),
            wait_reply_wf(*reply, tid, true),
        ensures
            final(th).wf(),
            (*reply) matches WaitReply::Woken { word } ==> r == Ok::<LockOutcome, LockError>(
                acquire_outcome(word),
            ) && final(m).0.futex == clear_owner_died(word) && final(th).owned() == seq![node_addr]
                + old(th).owned().remove_value(node_addr),
            reply is TimedOut ==> r == Err::<LockOutcome, LockError>(LockError::TimedOut),
            reply is Interrupted ==> r == Err::<LockOutcome, LockError>(LockError::Interrupted),
            (*reply) matches WaitReply::Failed { errno } ==> r == Err::<LockOutcome, LockError>(
                LockError::Kernel(errno),
            ),
            r is Ok ==> owner_bits(final(m).0.futex) == tid,
            r is Err ==> owner_bits(final(m).0.futex) != tid && final(th).owned() == old(
                th,
            ).owned().remove_value(node_addr),
    {
        self.wait_inner(m, th, tid, node_addr, Some(dur), transfer, reply)
    }
}

// ---------------------------------------------------------------------------
// The requeue law: what notify-all does to the kernel's wait queues.
// ---------------------------------------------------------------------------

/// The mutex's PI wait queue after a notify-all that found `parked` waiters
/// on the condvar word and `already` waiters on the mutex: the kernel moves
/// every parked waiter, in order, behind the ones already waiting (the
/// first is woken to contend immediately; it still acquires through the
/// same queue).
pub open spec fn queue_after_notify_all(parked: Seq<u32>, already: Seq<u32>) -> Seq<u32> {
    already + parked
}

/// For all notify-all calls following M parked waiters: all M end up on the
/// mutex queue — none lost, none duplicated, their order kept — so as the
/// lock is handed down the queue, exactly M of them wake, one at a time,
/// each holding the mutex at its turn.
pub proof fn lemma_notify_all_serializes(parked: Seq<u32>, already: Seq<u32>)
    ensures
        queue_after_notify_all(parked, already).len() == already.len() + parked.len(),
        forall|i: int|
            0 <= i < parked.len() ==> queue_after_notify_all(parked, already)[already.len() + i]
                == parked[i],
        queue_after_notify_all(parked, already).to_multiset() == already.to_multiset().add(
            parked.to_multiset(),
        ),
        forall|i: int|
            0 <= i < already.len() ==> queue_after_notify_all(parked, already)[i] == already[i],
{
    lemma_multiset_commutative(already, parked);
}

} // verus!

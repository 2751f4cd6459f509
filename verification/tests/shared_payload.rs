//! Scenario tests for the shared record (attach, payload access under the
//! lock) and the condition-variable protocol.

use shared_mutex::LockError;
use shared_mutex::LockOutcome;
use shared_mutex::LockPiReply;
use shared_mutex::NotifyCall;
use shared_mutex::PiCondvar;
use shared_mutex::SharedMutexInner;
use shared_mutex::ThreadRobustList;
use shared_mutex::TryLockOutcome;
use shared_mutex::UnlockReply;
use shared_mutex::WaitReply;
use shared_mutex::duration_to_timespec;
use shared_mutex::needs_init;
use shared_mutex::FUTEX_OWNER_DIED;
use shared_mutex::FUTEX_WAITERS;
use shared_mutex::PiMutex;

const TID_A: u32 = 2001;
const TID_B: u32 = 2002;
const TID_C: u32 = 2003;

fn thread_list(head_addr: usize) -> ThreadRobustList {
    ThreadRobustList::new(head_addr, -16)
}

fn free_transfer() -> UnlockReply {
    UnlockReply { word: 0 }
}

#[test]
fn needs_init_truth_table() {
    assert!(needs_init(false, false, false));
    assert!(needs_init(false, true, false));
    assert!(!needs_init(false, false, true));
    assert!(!needs_init(false, true, true));
    assert!(needs_init(true, true, true));
    assert!(!needs_init(true, false, true));
}

#[test]
fn basic_mutex_operations() {
    // Create with payload 42; lock, read 42, write 100, unlock; lock, read
    // 100.  No errors anywhere.
    let mut inner: SharedMutexInner<u64> = SharedMutexInner::new(0);
    let mut th = thread_list(0x7000);
    let no_replies: Vec<LockPiReply> = Vec::new();

    let attached = inner
        .attach(&mut th, TID_A, 0x100, &no_replies, &free_transfer(), true, 42)
        .unwrap();
    assert!(!attached);

    let r = inner.lock(&mut th, TID_A, 0x100, &no_replies);
    assert_eq!(r, Ok(LockOutcome::Clean));
    assert_eq!(*inner.payload(TID_A), 42);
    inner.set_payload(TID_A, 100);
    assert_eq!(*inner.payload(TID_A), 100);
    inner.unlock(&mut th, TID_A, 0x100, &free_transfer());

    let r = inner.lock(&mut th, TID_A, 0x100, &no_replies);
    assert_eq!(r, Ok(LockOutcome::Clean));
    assert_eq!(*inner.payload(TID_A), 100);
    inner.unlock(&mut th, TID_A, 0x100, &free_transfer());
}

#[test]
fn attach_initializes_only_once() {
    let mut inner: SharedMutexInner<u64> = SharedMutexInner::new(0);
    let mut th_a = thread_list(0x7000);
    let mut th_b = thread_list(0x8000);
    let no_replies: Vec<LockPiReply> = Vec::new();

    inner
        .attach(&mut th_a, TID_A, 0x100, &no_replies, &free_transfer(), true, 42)
        .unwrap();
    // The second process attaches with a different initializer; the
    // payload is already initialized and stays.
    inner
        .attach(&mut th_b, TID_B, 0x200, &no_replies, &free_transfer(), true, 999)
        .unwrap();
    inner.lock(&mut th_b, TID_B, 0x200, &no_replies).unwrap();
    assert_eq!(*inner.payload(TID_B), 42);
    inner.unlock(&mut th_b, TID_B, 0x200, &free_transfer());
}

#[test]
fn eight_threads_fifty_increments() {
    // Starting payload 0; eight contenders, fifty guarded increments
    // each; final payload 400.
    let mut inner: SharedMutexInner<u64> = SharedMutexInner::new(0);
    let no_replies: Vec<LockPiReply> = Vec::new();
    let mut lists: Vec<ThreadRobustList> = Vec::new();
    for t in 0..8usize {
        lists.push(thread_list(0x7000 + t * 0x1000));
    }
    for _round in 0..50usize {
        for t in 0..8usize {
            let tid: u32 = 3000 + t as u32;
            let node: usize = 0x100 + t;
            let r = inner.lock(&mut lists[t], tid, node, &no_replies);
            assert_eq!(r, Ok(LockOutcome::Clean));
            let v = *inner.payload(tid);
            inner.set_payload(tid, v + 1);
            inner.unlock(&mut lists[t], tid, node, &free_transfer());
        }
    }
    inner.lock(&mut lists[0], 3000, 0x100, &no_replies).unwrap();
    assert_eq!(*inner.payload(3000), 400);
    inner.unlock(&mut lists[0], 3000, 0x100, &free_transfer());
}

#[test]
fn guard_forgotten_surfaces_owner_death() {
    // A thread acquires, mutates the payload to 10, and terminates without
    // releasing.  The next lock reports the death with the payload intact;
    // after a clean release, a third lock is clean.
    let mut inner: SharedMutexInner<u64> = SharedMutexInner::new(0);
    let mut th_a = thread_list(0x7000);
    let mut th_b = thread_list(0x8000);
    let mut th_c = thread_list(0x9000);
    let no_replies: Vec<LockPiReply> = Vec::new();

    inner
        .attach(&mut th_a, TID_A, 0x100, &no_replies, &free_transfer(), true, 0)
        .unwrap();
    inner.lock(&mut th_a, TID_A, 0x100, &no_replies).unwrap();
    inner.set_payload(TID_A, 10);
    // A terminates without releasing; the kernel marks the word.
    inner.futex.kernel_owner_exit();

    let replies = vec![LockPiReply::Granted { word: TID_B | FUTEX_OWNER_DIED }];
    let r = inner.lock(&mut th_b, TID_B, 0x200, &replies);
    assert_eq!(r, Ok(LockOutcome::OwnerDied));
    assert_eq!(*inner.payload(TID_B), 10);
    inner.unlock(&mut th_b, TID_B, 0x200, &free_transfer());

    let r = inner.lock(&mut th_c, TID_C, 0x300, &no_replies);
    assert_eq!(r, Ok(LockOutcome::Clean));
    inner.unlock(&mut th_c, TID_C, 0x300, &free_transfer());
}

#[test]
fn poisoned_attach_reports_without_recovery() {
    // The region's mutex is abandoned on attach; with recovery declined
    // the poisoning is reported and the payload left as the dead owner
    // wrote it.
    let mut inner: SharedMutexInner<u64> = SharedMutexInner::new(0);
    let mut th_a = thread_list(0x7000);
    let mut th_b = thread_list(0x8000);
    let no_replies: Vec<LockPiReply> = Vec::new();

    inner
        .attach(&mut th_a, TID_A, 0x100, &no_replies, &free_transfer(), true, 42)
        .unwrap();
    inner.lock(&mut th_a, TID_A, 0x100, &no_replies).unwrap();
    inner.set_payload(TID_A, 7);
    inner.futex.kernel_owner_exit();

    let replies = vec![LockPiReply::Granted { word: TID_B | FUTEX_OWNER_DIED }];
    let poisoned = inner
        .attach(&mut th_b, TID_B, 0x200, &replies, &free_transfer(), false, 42)
        .unwrap();
    assert!(poisoned);
    inner.lock(&mut th_b, TID_B, 0x200, &no_replies).unwrap();
    assert_eq!(*inner.payload(TID_B), 7);
    inner.unlock(&mut th_b, TID_B, 0x200, &free_transfer());
}

#[test]
fn poisoned_attach_recovers_when_asked() {
    let mut inner: SharedMutexInner<u64> = SharedMutexInner::new(0);
    let mut th_a = thread_list(0x7000);
    let mut th_b = thread_list(0x8000);
    let no_replies: Vec<LockPiReply> = Vec::new();

    inner
        .attach(&mut th_a, TID_A, 0x100, &no_replies, &free_transfer(), true, 42)
        .unwrap();
    inner.lock(&mut th_a, TID_A, 0x100, &no_replies).unwrap();
    inner.set_payload(TID_A, 7);
    inner.futex.kernel_owner_exit();

    let replies = vec![LockPiReply::Granted { word: TID_B | FUTEX_OWNER_DIED }];
    let poisoned = inner
        .attach(&mut th_b, TID_B, 0x200, &replies, &free_transfer(), true, 42)
        .unwrap();
    assert!(poisoned);
    inner.lock(&mut th_b, TID_B, 0x200, &no_replies).unwrap();
    assert_eq!(*inner.payload(TID_B), 42);
    inner.unlock(&mut th_b, TID_B, 0x200, &free_transfer());
}

#[test]
fn try_lock_on_inner_record() {
    let mut inner: SharedMutexInner<u64> = SharedMutexInner::new(5);
    let mut th_a = thread_list(0x7000);
    let mut th_b = thread_list(0x8000);
    let no_replies: Vec<LockPiReply> = Vec::new();
    let dummy = LockPiReply::Failed { errno: 0 };

    inner.lock(&mut th_a, TID_A, 0x100, &no_replies).unwrap();
    assert!(inner.is_locked());
    let r = inner.try_lock(&mut th_b, TID_B, 0x200, &dummy);
    assert_eq!(r, Ok(TryLockOutcome::NotAcquired));
    inner.unlock(&mut th_a, TID_A, 0x100, &free_transfer());
    assert!(!inner.is_locked());
    let r = inner.try_lock(&mut th_b, TID_B, 0x200, &dummy);
    assert_eq!(r, Ok(TryLockOutcome::Acquired(LockOutcome::Clean)));
    assert_eq!(*inner.payload(TID_B), 5);
    inner.unlock(&mut th_b, TID_B, 0x200, &free_transfer());
}

#[test]
fn try_lock_surfaces_owner_death() {
    // A holder wrote 999 and terminated by panic with the guard leaked;
    // try_lock escalates through the kernel, reports the death, and still
    // grants exclusive access to the abandoned payload.
    let mut inner: SharedMutexInner<u64> = SharedMutexInner::new(42);
    let mut th_a = thread_list(0x7000);
    let mut th_b = thread_list(0x8000);
    let no_replies: Vec<LockPiReply> = Vec::new();

    inner.lock(&mut th_a, TID_A, 0x100, &no_replies).unwrap();
    inner.set_payload(TID_A, 999);
    inner.futex.kernel_owner_exit();

    let grant = LockPiReply::Granted { word: TID_B | FUTEX_OWNER_DIED };
    let r = inner.try_lock(&mut th_b, TID_B, 0x200, &grant);
    assert_eq!(r, Ok(TryLockOutcome::Acquired(LockOutcome::OwnerDied)));
    assert_eq!(*inner.payload(TID_B), 999);
    inner.unlock(&mut th_b, TID_B, 0x200, &free_transfer());
}

#[test]
fn grab_ignores_poisoning() {
    let mut inner: SharedMutexInner<u64> = SharedMutexInner::new(0);
    let mut th_a = thread_list(0x7000);
    let mut th_b = thread_list(0x8000);
    let no_replies: Vec<LockPiReply> = Vec::new();

    inner.lock(&mut th_a, TID_A, 0x100, &no_replies).unwrap();
    inner.set_payload(TID_A, 11);
    inner.futex.kernel_owner_exit();

    let replies = vec![LockPiReply::Granted { word: TID_B | FUTEX_OWNER_DIED }];
    let r = inner.grab(&mut th_b, TID_B, 0x200, &replies);
    assert_eq!(r, Ok(()));
    assert_eq!(*inner.payload(TID_B), 11);
    inner.unlock(&mut th_b, TID_B, 0x200, &free_transfer());
}

#[test]
fn notify_bumps_the_generation() {
    let mut cv = PiCondvar::new();
    assert_eq!(cv.generation(), 0);
    let c = cv.notify_one();
    assert_eq!(c, NotifyCall { wake_n: 1, requeue_n: 0, expected: 1 });
    let c = cv.notify_all();
    assert_eq!(c, NotifyCall { wake_n: 1, requeue_n: i32::MAX, expected: 2 });
    assert_eq!(cv.generation(), 2);
}

#[test]
fn generation_wraparound_is_benign() {
    let mut cv = PiCondvar(u32::MAX);
    let c = cv.notify_one();
    assert_eq!(c.expected, 0);
    assert_eq!(cv.generation(), 0);
}

#[test]
fn notify_all_serializes_requeued_waiters() {
    // Three waiters parked on the condvar; notify_all moves them all onto
    // the mutex queue, and the lock is handed down that queue one at a
    // time: each waiter wakes exactly once, in order, holding the mutex.
    let mut m = PiMutex::new();
    let mut cv = PiCondvar::new();
    let mut th_b = thread_list(0x8000);
    let mut th_scratch = thread_list(0x9000);
    let no_replies: Vec<LockPiReply> = Vec::new();

    m.lock(&mut th_b, TID_B, 0x200, &no_replies).unwrap();
    let c = cv.notify_all();
    assert_eq!(c.wake_n, 1);
    assert_eq!(c.requeue_n, i32::MAX);

    let waiters: Vec<u32> = vec![4001, 4002, 4003];
    let mut woken: Vec<u32> = Vec::new();
    // The kernel set the waiters bit when it requeued the parked threads.
    m.0.futex |= FUTEX_WAITERS;
    // The notifier releases; the kernel transfers ownership to the head of
    // the queue, and each waiter releases onward in turn.
    m.unlock(&mut th_b, TID_B, 0x200, &UnlockReply { word: waiters[0] | FUTEX_WAITERS });
    for i in 0..waiters.len() {
        let w = waiters[i];
        assert!(m.is_locked_by_me(w));
        woken.push(w);
        let next = if i + 1 < waiters.len() { waiters[i + 1] | FUTEX_WAITERS } else { 0 };
        m.unlock(&mut th_scratch, w, 0x500 + i, &UnlockReply { word: next });
    }
    assert_eq!(woken, waiters);
    assert_eq!(m.futex_word(), 0);
}

#[test]
fn condvar_one_shot() {
    // Thread A locks and waits on the condvar; thread B locks after A
    // suspends, mutates the payload, notifies one, releases; A's wait
    // returns holding the lock and observing B's mutation.
    let mut inner: SharedMutexInner<u64> = SharedMutexInner::new(0);
    let mut cv = PiCondvar::new();
    let mut th_a = thread_list(0x7000);
    let mut th_b = thread_list(0x8000);
    let no_replies: Vec<LockPiReply> = Vec::new();

    // A takes the lock and parks: the wait snapshots the generation and
    // releases the mutex before suspending (modeled by the unlock; the
    // suspension itself is the kernel's).
    inner.lock(&mut th_a, TID_A, 0x100, &no_replies).unwrap();
    let snapshot = cv.generation();
    assert_eq!(snapshot, 0);
    inner.unlock(&mut th_a, TID_A, 0x100, &free_transfer());

    // B locks, mutates, notifies one, releases.
    inner.lock(&mut th_b, TID_B, 0x200, &no_replies).unwrap();
    inner.set_payload(TID_B, 27);
    let c = cv.notify_one();
    assert_eq!(c, NotifyCall { wake_n: 1, requeue_n: 0, expected: 1 });
    inner.unlock(&mut th_b, TID_B, 0x200, &free_transfer());

    // A wakes owning the mutex (requeued onto its PI queue and handed
    // ownership by the kernel) and sees B's write.
    inner.lock(&mut th_a, TID_A, 0x100, &no_replies).unwrap();
    assert_eq!(*inner.payload(TID_A), 27);
    inner.unlock(&mut th_a, TID_A, 0x100, &free_transfer());
}

#[test]
fn wait_returns_owning_the_mutex() {
    // A successful wait always ends with "I hold the mutex again".
    let mut inner: SharedMutexInner<u64> = SharedMutexInner::new(0);
    let cv = PiCondvar::new();
    let mut th_a = thread_list(0x7000);
    let no_replies: Vec<LockPiReply> = Vec::new();

    inner.lock(&mut th_a, TID_A, 0x100, &no_replies).unwrap();
    inner.set_payload(TID_A, 33);
    let reply = WaitReply::Woken { word: TID_A };
    let r = cv.wait(&mut inner.futex, &mut th_a, TID_A, 0x100, &free_transfer(), &reply);
    assert_eq!(r, Ok(LockOutcome::Clean));
    assert!(inner.futex.is_locked_by_me(TID_A));
    assert_eq!(*inner.payload(TID_A), 33);
    inner.unlock(&mut th_a, TID_A, 0x100, &free_transfer());
}

#[test]
fn wait_timeout_returns_without_the_mutex() {
    // On timeout the caller does not hold the mutex and no robust-list
    // entry remains.
    let mut inner: SharedMutexInner<u64> = SharedMutexInner::new(0);
    let cv = PiCondvar::new();
    let mut th_a = thread_list(0x7000);
    let no_replies: Vec<LockPiReply> = Vec::new();

    inner.lock(&mut th_a, TID_A, 0x100, &no_replies).unwrap();
    let dur = duration_to_timespec(0, 100_000_000);
    let r = cv.wait_timeout(
        &mut inner.futex,
        &mut th_a,
        TID_A,
        0x100,
        dur,
        &free_transfer(),
        &WaitReply::TimedOut,
    );
    assert_eq!(r, Err(LockError::TimedOut));
    assert!(!inner.futex.is_locked_by_me(TID_A));
    assert!(th_a.nodes.is_empty());
}

#[test]
fn wait_interrupted_surfaces_the_signal() {
    let mut inner: SharedMutexInner<u64> = SharedMutexInner::new(0);
    let cv = PiCondvar::new();
    let mut th_a = thread_list(0x7000);
    let no_replies: Vec<LockPiReply> = Vec::new();

    inner.lock(&mut th_a, TID_A, 0x100, &no_replies).unwrap();
    let r = cv.wait(
        &mut inner.futex,
        &mut th_a,
        TID_A,
        0x100,
        &free_transfer(),
        &WaitReply::Interrupted,
    );
    assert_eq!(r, Err(LockError::Interrupted));
    assert!(!inner.futex.is_locked_by_me(TID_A));
}

#[test]
fn wait_reacquires_through_an_abandoned_word() {
    // A notifier died between handing the mutex over and the waiter's
    // return: the waiter clears the mark and reports it.
    let mut inner: SharedMutexInner<u64> = SharedMutexInner::new(0);
    let cv = PiCondvar::new();
    let mut th_a = thread_list(0x7000);
    let no_replies: Vec<LockPiReply> = Vec::new();

    inner.lock(&mut th_a, TID_A, 0x100, &no_replies).unwrap();
    let reply = WaitReply::Woken { word: TID_A | FUTEX_OWNER_DIED };
    let r = cv.wait(&mut inner.futex, &mut th_a, TID_A, 0x100, &free_transfer(), &reply);
    assert_eq!(r, Ok(LockOutcome::OwnerDied));
    assert!(inner.futex.is_locked_by_me(TID_A));
    inner.unlock(&mut th_a, TID_A, 0x100, &free_transfer());
}

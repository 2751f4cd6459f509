//! A model of a cross-process mutex with priority inheritance and
//! owner-death recovery, plus a companion condition variable, built on the
//! Linux kernel's PI-futex primitives and robust-futex list.
//!
//! The kernel acts through syscalls and asynchronous memory writes that no
//! verifier can observe, so this crate verifies the protocol itself: the
//! bit-exact futex word encoding, the robust-list sentinel discipline, the
//! acquire/release/try fast paths, the retry and error policies around each
//! syscall, and the condition-variable generation protocol.  Every place the
//! kernel decides something, that decision arrives here as a plain value (the
//! word the kernel left, the errno a syscall returned), and the functions in
//! this crate state exactly what the protocol does with every such value.
//! The thin unverified shell that issues the actual syscalls feeds those
//! values through the functions and helpers defined here.

pub mod condvar;
pub mod futex;
pub mod mutex;
pub mod robust_list;
pub mod shared_data;

pub use condvar::NotifyCall;
pub use condvar::PiCondvar;
pub use condvar::WaitReply;
pub use futex::AosMutex;
pub use futex::LockError;
pub use futex::LockOutcome;
pub use futex::LockPiReply;
pub use futex::LockStep;
pub use futex::TimeSpec;
pub use futex::UnlockReply;
pub use futex::duration_to_timespec;
pub use futex::lock_retry_decision;
pub use futex::word_clear_owner_died;
pub use futex::word_has_waiters;
pub use futex::word_is_free;
pub use futex::word_owner;
pub use futex::word_owner_died;
pub use futex::FUTEX_OWNER_DIED;
pub use futex::FUTEX_TID_MASK;
pub use futex::FUTEX_WAITERS;
pub use mutex::PiMutex;
pub use mutex::TryLockOutcome;
pub use mutex::WordEvent;
pub use robust_list::RobustList;
pub use robust_list::RobustListHead;
pub use robust_list::RobustNode;
pub use robust_list::ThreadRobustList;
pub use robust_list::robust_add;
pub use robust_list::robust_remove;
pub use shared_data::SharedMemorySafe;
pub use shared_data::SharedMutexInner;
pub use shared_data::needs_init;

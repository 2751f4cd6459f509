//! The robust list: the per-thread, singly-linked list of mutexes the thread
//! currently owns.
//!
//! The kernel walks this list when the thread dies, following each `next`
//! link to find the abandoned futex words, so the links obey a strict
//! discipline: the list starts at a registered head, every reachable node
//! already carries a plausible `next`, and the last link points back at the
//! head itself (the kernel's sentinel requirement).  This module models the
//! head, the link words and the whole per-thread list with addresses as
//! plain values, and proves that adding and removing an owned mutex keeps
//! the cycle discipline intact.

use vstd::prelude::*;

verus! {

/// Kernel ABI for the single link word that every owned mutex contributes:
/// the address of the next owned mutex's link word, or of the head's own
/// link when this node is the last.
pub struct RobustList {
    pub next: usize,
}

/// Kernel ABI for the per-thread head registered with `set_robust_list`.
pub struct RobustListHead {
    /// The head's own link word; the list is empty exactly when it points
    /// back at the head itself.
    pub list: RobustList,
    /// Offset between a mutex's link word and its futex word; the kernel
    /// adds it to each visited link to find the word to mark.
    pub futex_offset: isize,
    /// A link the kernel treats as pending if the thread dies mid-update;
    /// this model never leaves one pending.
    pub list_op_pending: usize,
    /// Where the head's own link word sits.  The running system takes the
    /// address of `list`; the model carries it as a value so the sentinel
    /// discipline can be stated.
    pub head_addr: usize,
}

impl RobustListHead {
    /// An empty head: its link points back at itself (the sentinel the
    /// kernel requires of an empty list), with nothing pending.
    pub fn new(head_addr: usize, futex_offset: isize) -> (r: Self)
        ensures
            r.list.next == head_addr,
            r.futex_offset == futex_offset,
            r.list_op_pending == 0,
            r.head_addr == head_addr,
    {
        RobustListHead {
            list: RobustList { next: head_addr },
            futex_offset,
            list_op_pending: 0,
            head_addr,
        }
    }

    /// The sentinel value a link holds when it terminates the list: the
    /// address of the head's own link word.
    pub fn head_value(&self) -> (r: usize)
        ensures
            r == self.head_addr,
    {
        self.head_addr
    }
}

/// One owned mutex as the thread's list sees it: where its link word sits,
/// and what that link word holds.
pub struct RobustNode {
    pub addr: usize,
    pub link: RobustList,
}

/// The whole robust list of one thread: the registered head and the owned
/// mutexes in list order, front first.
pub struct ThreadRobustList {
    pub head: RobustListHead,
    pub nodes: Vec<RobustNode>,
}

impl ThreadRobustList {
    /// The addresses of the owned mutexes' link words, in list order.
    pub open spec fn owned(&self) -> Seq<usize> {
        self.nodes@.map_values(|n: RobustNode| n.addr)
    }

    /// What the link of the node at position `i` must hold: the next node's
    /// address, or the head's own address when `i` is last.
    pub open spec fn link_target(&self, i: int) -> usize {
        if i + 1 == self.nodes@.len() {
            self.head.head_addr
        } else {
            self.nodes@[i + 1].addr
        }
    }

    /// The kernel's sentinel discipline: the head reaches the first node (or
    /// itself when empty), every node's link reaches the node after it, and
    /// the last link closes the cycle back at the head.  Addresses are
    /// nonzero, distinct, and never the head's own.
    pub open spec fn wf(&self) -> bool {
        &&& self.head.list.next == (if self.nodes@.len() == 0 {
            self.head.head_addr
        } else {
            self.nodes@[0].addr
        })
        &&& forall|i: int|
            0 <= i < self.nodes@.len() ==> #[trigger] self.nodes@[i].link.next == self.link_target(
                i,
            )
        &&& forall|i: int, j: int|
            0 <= i < j < self.nodes@.len() ==> #[trigger] self.nodes@[i].addr != #[trigger] self
                .nodes@[j].addr
        &&& forall|i: int|
            0 <= i < self.nodes@.len() ==> #[trigger] self.nodes@[i].addr != self.head.head_addr
                && self.nodes@[i].addr != 0
        &&& self.head.list_op_pending == 0
        &&& self.head.head_addr != 0
    }

    /// A fresh, empty list for one thread, ready to be registered with the
    /// kernel.
    pub fn new(head_addr: usize, futex_offset: isize) -> (r: Self)
        requires
            head_addr != 0,
        ensures
            r.wf(),
            r.owned() == Seq::<usize>::empty(),
            r.head.head_addr == head_addr,
            r.head.futex_offset == futex_offset,
            r.head.list.next == head_addr,
    {
        let r = ThreadRobustList { head: RobustListHead::new(head_addr, futex_offset), nodes: Vec::new() };
        assert(r.owned() =~= Seq::<usize>::empty());
        r
    }
}

/// A mutex node a well-formed thread list owns appears in it exactly once:
/// no two positions hold the same address.
pub proof fn lemma_owned_once(th: ThreadRobustList, addr: usize)
    requires
        th.wf(),
        th.owned().contains(addr),
    ensures
        forall|i: int, j: int|
            0 <= i < th.owned().len() && 0 <= j < th.owned().len() && th.owned()[i] == addr
                && th.owned()[j] == addr ==> i == j,
{
    assert forall|i: int, j: int|
        0 <= i < th.owned().len() && 0 <= j < th.owned().len() && th.owned()[i] == addr
            && th.owned()[j] == addr implies i == j by {
        assert(th.nodes@[i].addr == addr && th.nodes@[j].addr == addr);
    }
}

/// Pushes the link word at `addr` onto the front of the thread's robust
/// list.  The new node's link is written before the head is made to point at
/// it, so the kernel — which may inspect the list at any instant of thread
/// death — only ever reaches nodes whose links already close the cycle.
/// Returns the value written into the new node's link word.
pub fn robust_add(list: &mut ThreadRobustList, addr: usize) -> (link: usize)
    requires
        old(list).wf(),
        !old(list).owned().contains(addr),
        addr != old(list).head.head_addr,
        addr != 0,
    ensures
        final(list).wf(),
        final(list).owned() == seq![addr] + old(list).owned(),
        final(list).head.head_addr == old(list).head.head_addr,
        final(list).head.futex_offset == old(list).head.futex_offset,
        link == old(list).head.list.next,
{
    let link = list.head.list.next;
    let node = RobustNode { addr, link: RobustList { next: link } };
    list.nodes.insert(0, node);
    list.head.list.next = addr;
    proof {
        assert(list.owned() =~= seq![addr] + old(list).owned());
        assert forall|i: int| 0 <= i < list.nodes@.len() implies #[trigger] list.nodes@[i].link.next
            == list.link_target(i) by {
            if i > 0 {
                assert(list.nodes@[i] == old(list).nodes@[i - 1]);
                assert(old(list).nodes@[i - 1].link.next == old(list).link_target(i - 1));
            }
        }
        assert forall|i: int, j: int| 0 <= i < j < list.nodes@.len() implies #[trigger] list
            .nodes@[i].addr != #[trigger] list.nodes@[j].addr by {
            if i > 0 {
            } else {
                assert(list.nodes@[j].addr == old(list).owned()[j - 1]);
                assert(old(list).owned().contains(old(list).owned()[j - 1]));
            }
        }
    }
    link
}

/// Unlinks the link word at `addr` from the thread's robust list: walks from
/// the head (the list is a handful of nested locks, so the walk is short)
/// and, on a match, splices the node out by rewriting its predecessor's
/// link.  A node that is not on the list is left alone.
pub fn robust_remove(list: &mut ThreadRobustList, addr: usize)
    requires
        old(list).wf(),
    ensures
        final(list).wf(),
        final(list).owned() == old(list).owned().remove_value(addr),
        !final(list).owned().contains(addr),
        old(list).owned().contains(addr) ==> final(list).owned().len() == old(
            list,
        ).owned().len() - 1,
        !old(list).owned().contains(addr) ==> *final(list) == *old(list),
        final(list).head.head_addr == old(list).head.head_addr,
        final(list).head.futex_offset == old(list).head.futex_offset,
{
    let n = list.nodes.len();
    let mut i: usize = 0;
    while i < n
        invariant
            n == list.nodes@.len(),
            0 <= i <= n,
            *list == *old(list),
            list.wf(),
            forall|j: int| 0 <= j < i ==> #[trigger] list.nodes@[j].addr != addr,
        decreases n - i,
    {
        if list.nodes[i].addr == addr {
            let nxt = list.nodes[i].link.next;
            list.nodes.remove(i);
            if i == 0 {
                list.head.list.next = nxt;
            } else {
                list.nodes[i - 1].link.next = nxt;
            }
            proof {
                let oldn = old(list).nodes@;
                let k = i as int;
                assert(nxt == old(list).link_target(k));
                assert forall|m: int| 0 <= m < list.nodes@.len() implies #[trigger] list.nodes@[m]
                    .link.next == list.link_target(m) by {
                    if m < k - 1 {
                        assert(list.nodes@[m] == oldn[m]);
                        assert(oldn[m].link.next == old(list).link_target(m));
                    } else if m == k - 1 {
                    } else {
                        assert(list.nodes@[m] == oldn[m + 1]);
                        assert(oldn[m + 1].link.next == old(list).link_target(m + 1));
                    }
                }
                assert(list.owned() =~= old(list).owned().remove(k));
                old(list).owned().index_of_first_ensures(addr);
                assert(old(list).owned()[k] == addr);
                assert(old(list).owned().index_of_first(addr) == Some(k));
                assert(list.owned() == old(list).owned().remove_value(addr));
                assert forall|m: int| 0 <= m < list.owned().len() implies #[trigger] list.owned()[m]
                    != addr by {
                    if m < k {
                        assert(list.owned()[m] == old(list).owned()[m]);
                    } else {
                        assert(list.owned()[m] == old(list).owned()[m + 1]);
                    }
                }
            }
            return ;
        }
        i += 1;
    }
    proof {
        assert forall|m: int| 0 <= m < list.owned().len() implies #[trigger] list.owned()[m]
            != addr by {}
        old(list).owned().index_of_first_ensures(addr);
        if old(list).owned().contains(addr) {
            let w = choose|w: int| 0 <= w < old(list).owned().len() && old(list).owned()[w] == addr;
            assert(old(list).owned()[w] != addr);
        }
    }
}

} // verus!

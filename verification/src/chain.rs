//! A singly-owned chain of nodes with weak backward references.
//!
//! Ownership flows strictly from the head towards the tail: only `next`
//! links are owning, while `prev` links are observing and never keep a
//! node alive.  The nodes live in an index-addressed arena: a node is
//! alive exactly while its slot is still part of the arena, and a weak
//! reference is an index whose lookup may find the slot vacated.  Because
//! nodes are created only during construction and slots are vacated only
//! from the tail end, an index is never reused: once a node is detached,
//! every weak reference to it stays dead.

use vstd::prelude::*;

verus! {

/// One node of the chain: a payload, an owning link to the successor and
/// an observing link to the predecessor.
#[derive(Debug)]
pub struct DllElement {
    value: i32,
    /// Strong link: the slot index of the next node, which this node owns.
    next: Option<usize>,
    /// Weak link: the slot index of the previous node; never owning.
    prev: Option<usize>,
}

/// The chain itself.  `slots` is the arena of live nodes; `head` is the
/// sole external strong root.
#[derive(Debug)]
pub struct Dll {
    slots: Vec<DllElement>,
    head: Option<usize>,
}

/// A weak, non-owning handle to a node.  Resolving it against the chain
/// fails once the node it designates has been detached and reclaimed.
#[derive(Debug)]
pub struct WeakRef {
    index: usize,
}

impl View for Dll {
    type V = Seq<i32>;

    /// The values of the nodes still attached to the chain, head first.
    closed spec fn view(&self) -> Seq<i32> {
        self.slots@.map(|i: int, e: DllElement| e.value)
    }
}

impl View for WeakRef {
    type V = nat;

    /// The slot index the handle designates.
    closed spec fn view(&self) -> nat {
        self.index as nat
    }
}

/// What an attached-value lookup finds in a chain whose attached values
/// are `s`: the value at position `i` while `i` is in range, nothing once
/// the position is out of range.
pub open spec fn resolve_spec(s: Seq<i32>, i: nat) -> Option<i32> {
    if i < s.len() {
        Option::Some(s[i as int])
    } else {
        Option::None
    }
}

/// The attached values that remain after detaching the node at position
/// `k` together with its whole onward tail: the prefix of length `k`, or
/// the unchanged sequence when no node sits at position `k`.
pub open spec fn truncate_spec(s: Seq<i32>, k: nat) -> Seq<i32> {
    if k < s.len() {
        s.subrange(0, k as int)
    } else {
        s
    }
}

impl Dll {
    /// Well-formedness: the arena holds the attached nodes in chain order,
    /// the head points at the first of them, every node owns exactly its
    /// successor and observes exactly its predecessor.
    pub closed spec fn wf(&self) -> bool {
        &&& self.head == (if self.slots@.len() == 0 {
            Option::<usize>::None
        } else {
            Option::<usize>::Some(0usize)
        })
        &&& forall|i: int|
            0 <= i < self.slots@.len() ==> (#[trigger] self.slots@[i]).next == (if i + 1
                < self.slots@.len() {
                Option::<usize>::Some((i + 1) as usize)
            } else {
                Option::<usize>::None
            })
        &&& forall|i: int|
            0 <= i < self.slots@.len() ==> (#[trigger] self.slots@[i]).prev == (if 0 < i {
                Option::<usize>::Some((i - 1) as usize)
            } else {
                Option::<usize>::None
            })
    }

    /// Builds the chain left to right from the given values.  Each node is
    /// created holding one value; the node created before it owns it
    /// through `next` and is observed by it through `prev`; the first node
    /// becomes the head.  Always succeeds.
    pub fn new(elements: &[i32]) -> (dll: Dll)
        ensures
            dll.wf(),
            dll@ == elements@,
    {
        let n: usize = elements.len();
        let mut slots: Vec<DllElement> = Vec::new();
        let mut idx: usize = 0;
        while idx < n
            invariant
                idx <= n,
                n == elements@.len(),
                slots@.len() == idx,
                forall|i: int| 0 <= i < idx ==> (#[trigger] slots@[i]).value == elements@[i],
                forall|i: int|
                    0 <= i < idx ==> (#[trigger] slots@[i]).next == (if i + 1 < idx {
                        Option::<usize>::Some((i + 1) as usize)
                    } else {
                        Option::<usize>::None
                    }),
                forall|i: int|
                    0 <= i < idx ==> (#[trigger] slots@[i]).prev == (if 0 < i {
                        Option::<usize>::Some((i - 1) as usize)
                    } else {
                        Option::<usize>::None
                    }),
            decreases n - idx,
        {
            let prev_link = if idx == 0 {
                None
            } else {
                Some(idx - 1)
            };
            slots.push(DllElement { value: elements[idx], next: None, prev: prev_link });
            if idx > 0 {
                // The previous node takes ownership of the node just created.
                slots[idx - 1].next = Some(idx);
            }
            idx = idx + 1;
        }
        let head = if n == 0 {
            None
        } else {
            Some(0)
        };
        let dll = Dll { slots, head };
        proof {
            assert(dll@ =~= elements@);
        }
        dll
    }

    /// Walks the owning `next` links from the head, counting positions
    /// from 0, and hands back a weak reference to the node at `index`;
    /// nothing when `index` is at or past the end of the chain.  The
    /// handle does not keep the node alive: it must be resolved before
    /// use.
    pub fn ref_at_index(&self, index: usize) -> (r: Option<WeakRef>)
        requires
            self.wf(),
        ensures
            match r {
                Option::Some(h) => index < self@.len() && h@ == index as nat,
                Option::None => index >= self@.len(),
            },
    {
        let mut current: Option<usize> = self.head;
        let mut current_index: usize = 0;
        loop
            invariant
                self.wf(),
                current_index <= self.slots.len(),
                current_index <= index,
                current == (if (current_index as int) < self.slots@.len() {
                    Option::<usize>::Some(current_index)
                } else {
                    Option::<usize>::None
                }),
            decreases self.slots.len() - current_index,
        {
            match current {
                Some(ci) => {
                    if current_index == index {
                        return Some(WeakRef { index: ci });
                    }
                    current = self.slots[ci].next;
                    current_index = current_index + 1;
                }
                None => {
                    return None;
                }
            }
        }
    }

    /// Detaches the node at position `index`, and with it everything it
    /// owns onward, from the chain: at position 0 the chain empties; at a
    /// later position the predecessor — reached through the weak `prev`
    /// link — lets go of its `next` link, severing the one strong path to
    /// the whole tail.  When no node sits at `index`, nothing changes.
    /// The detached nodes' storage is reclaimed at once: no strong
    /// reference to them is left anywhere.
    pub fn drop_after_index(&mut self, index: usize)
        requires
            old(self).wf(),
        ensures
            final(self).wf(),
            final(self)@ == truncate_spec(old(self)@, index as nat),
    {
        let mut current: Option<usize> = self.head;
        let mut current_index: usize = 0;
        let mut target: Option<usize> = None;
        loop
            invariant_except_break
                target is None,
            invariant
                self.wf(),
                *self == *old(self),
                current_index <= self.slots.len(),
                current_index <= index,
                current == (if (current_index as int) < self.slots@.len() {
                    Option::<usize>::Some(current_index)
                } else {
                    Option::<usize>::None
                }),
            ensures
                *self == *old(self),
                match target {
                    Option::Some(t) => t == index && (index as int) < self.slots@.len(),
                    Option::None => index >= self.slots@.len(),
                },
            decreases self.slots.len() - current_index,
        {
            match current {
                Some(ci) => {
                    if current_index == index {
                        target = Some(ci);
                        break;
                    }
                    current = self.slots[ci].next;
                    current_index = current_index + 1;
                }
                None => {
                    break;
                }
            }
        }
        match target {
            None => {
                // No node at this position: the call is a no-op.
            }
            Some(ci) => {
                let prev_link = self.slots[ci].prev;
                match prev_link {
                    None => {
                        // The node at `index` is the head: the chain lets
                        // go of everything.
                        self.head = None;
                    }
                    Some(p) => {
                        // The predecessor is still attached, so its weak
                        // link resolves; it forgets its successor.
                        self.slots[p].next = None;
                    }
                }
                // With the one strong path severed, the detached tail's
                // reference counts reach zero and its slots are vacated.
                self.slots.truncate(index);
                proof {
                    assert(self@ =~= truncate_spec(old(self)@, index as nat));
                }
            }
        }
    }
}

impl WeakRef {
    /// Resolves the weak reference against the chain: the designated
    /// node's value while the node is still attached, nothing once it has
    /// been detached and reclaimed.  Resolution never extends a node's
    /// lifetime.
    pub fn resolve(&self, dll: &Dll) -> (r: Option<i32>)
        ensures
            r == resolve_spec(dll@, self@),
    {
        if self.index < dll.slots.len() {
            Some(dll.slots[self.index].value)
        } else {
            None
        }
    }
}

/// Law: in a freshly built chain every position below the length holds
/// its input value, so a weak reference obtained there resolves to it,
/// while a reference at or past the length finds nothing.
pub proof fn lemma_fresh_chain_resolution(s: Seq<i32>, i: nat)
    ensures
        i < s.len() ==> resolve_spec(s, i) == Option::Some(s[i as int]),
        i >= s.len() ==> resolve_spec(s, i) is None,
{
}

/// Law: detaching at position `k` leaves every weak reference below `k`
/// resolving exactly as before, and every weak reference at or above `k`
/// resolving to nothing.
pub proof fn lemma_truncation_splits_handles(s: Seq<i32>, k: nat, i: nat)
    ensures
        i < k ==> resolve_spec(truncate_spec(s, k), i) == resolve_spec(s, i),
        i >= k ==> resolve_spec(truncate_spec(s, k), i) is None,
{
}

/// Law: detaching at position 0 empties the chain, whatever it held: no
/// position resolves afterwards.
pub proof fn lemma_truncation_at_head_empties(s: Seq<i32>, i: nat)
    ensures
        truncate_spec(s, 0) =~= Seq::<i32>::empty(),
        resolve_spec(truncate_spec(s, 0), i) is None,
{
}

/// Law: detaching at or past the end of the chain changes nothing, so
/// every previously obtained weak reference is unaffected.
pub proof fn lemma_truncation_past_end_is_noop(s: Seq<i32>, k: nat)
    requires
        k >= s.len(),
    ensures
        truncate_spec(s, k) == s,
{
}

/// Law: detaching at the same position twice has the observable effect of
/// detaching once — the second call finds no node at that position any
/// more and is a no-op.
pub proof fn lemma_truncation_idempotent(s: Seq<i32>, k: nat)
    ensures
        truncate_spec(truncate_spec(s, k), k) == truncate_spec(s, k),
{
}

} // verus!

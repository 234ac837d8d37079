//! The bounded LIFO stack of 32-bit signed words used throughout the machine:
//! one data stack, one call stack, and one stack per port.

use vstd::prelude::*;

verus! {

/// Capacity of every stack in the machine, in 32-bit words.
pub const MAX_STACK_SIZE: usize = 0x1_0000;

/// Out-of-band top-cursor value marking an empty stack.
pub const STACK_EMPTY: usize = 0x1_0000 + 666;

/// A bounded LIFO of 32-bit signed words, with a top cursor that is either
/// the empty sentinel or the index of the current top word. Slots beyond the
/// cursor are undefined: callers must not read them.
#[derive(Clone)]
pub struct Stack {
    pub vals: Vec<i32>,
    pub top: usize,
}

/// What a push yields on a bounded stack: the word goes on top unless the
/// stack is already full, in which case the stack is unchanged.
pub open spec fn pushed(s: Seq<i32>, v: i32) -> Seq<i32> {
    if s.len() >= MAX_STACK_SIZE {
        s
    } else {
        s.push(v)
    }
}

/// What a pop leaves behind: the stack without its top word, or the empty
/// stack unchanged.
pub open spec fn popped(s: Seq<i32>) -> Seq<i32> {
    if s.len() == 0 {
        s
    } else {
        s.drop_last()
    }
}

impl View for Stack {
    type V = Seq<i32>;

    /// The words held, bottom first; the top of the stack is the last element.
    open spec fn view(&self) -> Seq<i32> {
        if self.top == STACK_EMPTY {
            Seq::<i32>::empty()
        } else {
            self.vals@.subrange(0, self.top as int + 1)
        }
    }
}

impl Stack {
    /// The backing storage has full capacity and the cursor is either the
    /// empty sentinel or a valid index.
    pub open spec fn wf(&self) -> bool {
        &&& self.vals@.len() == MAX_STACK_SIZE
        &&& (self.top == STACK_EMPTY || self.top < MAX_STACK_SIZE)
    }

    /// Yields the empty stack, with the backing storage zeroed.
    pub fn new() -> (s: Stack)
        ensures
            s.wf(),
            s@ == Seq::<i32>::empty(),
            s.top == STACK_EMPTY,
            s.vals@ == Seq::new(MAX_STACK_SIZE as nat, |i: int| 0i32),
    {
        Stack { vals: zeroed_words(), top: STACK_EMPTY }
    }

    /// Returns to the state a new stack has: empty, backing storage zeroed.
    pub fn clear(&mut self)
        ensures
            final(self).wf(),
            final(self)@ == Seq::<i32>::empty(),
            final(self).top == STACK_EMPTY,
            final(self).vals@ == Seq::new(MAX_STACK_SIZE as nat, |i: int| 0i32),
    {
        self.vals = zeroed_words();
        self.top = STACK_EMPTY;
    }

    /// Whether the stack holds no words.
    pub fn empty(&self) -> (r: bool)
        requires
            self.wf(),
        ensures
            r == (self@.len() == 0),
            r == (self.top == STACK_EMPTY),
    {
        self.top == STACK_EMPTY
    }

    /// Whether the stack is at capacity, so that a push would fail.
    pub fn full(&self) -> (r: bool)
        requires
            self.wf(),
        ensures
            r == (self@.len() == MAX_STACK_SIZE),
    {
        self.top == MAX_STACK_SIZE - 1
    }

    /// Places a word on top and reports success, or fails and leaves the
    /// stack unchanged if the stack is at capacity.
    pub fn push(&mut self, a: i32) -> (r: bool)
        requires
            old(self).wf(),
        ensures
            final(self).wf(),
            r == (old(self)@.len() < MAX_STACK_SIZE),
            final(self)@ == pushed(old(self)@, a),
            !r ==> *final(self) == *old(self),
    {
        if self.empty() {
            self.top = 0;
        } else if self.full() {
            return false;
        } else {
            self.top = self.top + 1;
        }
        self.vals[self.top] = a;
        proof {
            assert(self@ =~= pushed(old(self)@, a));
        }
        true
    }

    /// Yields the top word without removing it, or nothing if the stack is
    /// empty. The stack is never changed.
    pub fn peek(&mut self) -> (r: Option<i32>)
        requires
            old(self).wf(),
        ensures
            *final(self) == *old(self),
            old(self)@.len() == 0 ==> r is None,
            old(self)@.len() > 0 ==> r == Some(old(self)@.last()),
    {
        if self.empty() {
            return None;
        }
        Some(self.vals[self.top])
    }

    /// Removes and yields the top word, or yields nothing and leaves the
    /// stack unchanged if it is empty.
    pub fn pop(&mut self) -> (r: Option<i32>)
        requires
            old(self).wf(),
        ensures
            final(self).wf(),
            final(self)@ == popped(old(self)@),
            old(self)@.len() == 0 ==> r is None && *final(self) == *old(self),
            old(self)@.len() > 0 ==> r == Some(old(self)@.last()),
    {
        let val = self.peek();
        if val.is_some() {
            if self.top == 0 {
                self.top = STACK_EMPTY;
            } else {
                self.top = self.top - 1;
            }
            proof {
                assert(self@ =~= popped(old(self)@));
            }
        }
        val
    }
}

/// A full-capacity backing store of zeroed words.
fn zeroed_words() -> (v: Vec<i32>)
    ensures
        v@ == Seq::new(MAX_STACK_SIZE as nat, |i: int| 0i32),
{
    let mut v: Vec<i32> = Vec::new();
    let mut i: usize = 0;
    while i < MAX_STACK_SIZE
        invariant
            i <= MAX_STACK_SIZE,
            v@.len() == i,
            forall|k: int| 0 <= k < i ==> v@[k] == 0i32,
        decreases MAX_STACK_SIZE - i,
    {
        v.push(0);
        i = i + 1;
    }
    proof {
        assert(v@ =~= Seq::new(MAX_STACK_SIZE as nat, |i: int| 0i32));
    }
    v
}

/// Pushing a word and popping it back are exact inverses on a stack that is
/// not at capacity: the pop yields the pushed word and restores the stack.
pub proof fn lemma_push_then_pop(s: Seq<i32>, v: i32)
    requires
        s.len() < MAX_STACK_SIZE,
    ensures
        pushed(s, v).len() > 0,
        pushed(s, v).last() == v,
        popped(pushed(s, v)) == s,
{
    assert(popped(pushed(s, v)) =~= s);
}

/// Popping the top word and pushing it back are exact inverses on a
/// non-empty stack.
pub proof fn lemma_pop_then_push(s: Seq<i32>)
    requires
        0 < s.len() <= MAX_STACK_SIZE,
    ensures
        pushed(popped(s), s.last()) == s,
{
    assert(pushed(popped(s), s.last()) =~= s);
}

} // verus!

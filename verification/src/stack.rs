//! The bounded operand stack.
//!
//! [`StackComponent`] owns two fixed-capacity last-in-first-out sequences: a
//! primary sequence of values and an auxiliary sequence of frames (chunks of
//! values that travel as a unit). Both capacities are fixed at construction.
//! Every operation either succeeds or fails with a [`StackError`] and leaves
//! the stack exactly as it was: no operation ends in a partially-mutated
//! state. An operation on one sequence never touches the other: the
//! [`StackComponent`] impls say so over [`StackComponent::value_seq`] and
//! [`StackComponent::frame_seq`], the meanings behind the trait views.
//!
//! The spec functions [`spec_push`], [`spec_pop`] and [`spec_pop_n`] give the
//! mathematical meaning of the three operation shapes; the trait contracts
//! and the interpreter's semantics are stated over them.

use vstd::prelude::*;

verus! {

/// The error taxonomy of a run: every failure an instruction or a stack
/// operation can produce.
#[derive(Clone, Copy, Debug, PartialEq, Eq)]
pub enum StackError {
    /// A pop asked for more values than the stack holds.
    StackUnderFlow,
    /// A push would grow a sequence past its fixed capacity.
    StackOverFlow,
    /// An instruction met operand tags it is not defined for.
    StackInvalidType,
    /// A division met a divisor equal to zero.
    DivisionByZero,
}

/// What a push does to a bounded sequence: appends, unless the sequence is
/// already at capacity, in which case it fails and the sequence is unchanged.
pub open spec fn spec_push<T>(s: Seq<T>, cap: nat, value: T) -> (Seq<T>, Result<(), StackError>) {
    if s.len() == cap {
        (s, Err(StackError::StackOverFlow))
    } else {
        (s.push(value), Ok(()))
    }
}

/// What a pop does to a bounded sequence: removes and returns the last
/// (top) element, unless the sequence is empty, in which case it fails.
pub open spec fn spec_pop<T>(s: Seq<T>) -> (Seq<T>, Result<T, StackError>) {
    if s.len() == 0 {
        (s, Err(StackError::StackUnderFlow))
    } else {
        (s.drop_last(), Ok(s.last()))
    }
}

/// What a bulk pop of the top `n` elements does: all-or-nothing removal of
/// the top `n` as a group. With `rev` false the group keeps stack order
/// (deepest element of the group first); with `rev` true it is reversed
/// (top of stack first). On underflow the sequence is unchanged.
pub open spec fn spec_pop_n<T>(s: Seq<T>, n: nat, rev: bool) -> (
    Seq<T>,
    Result<Seq<T>, StackError>,
) {
    if s.len() < n {
        (s, Err(StackError::StackUnderFlow))
    } else {
        let group = s.subrange(s.len() - n, s.len() as int);
        (s.take(s.len() - n), Ok(if rev {
            group.reverse()
        } else {
            group
        }))
    }
}

/// The primary bounded stack interface.
pub trait Stack<T>: Sized {
    /// The values currently held, bottom first.
    spec fn values(&self) -> Seq<T>;

    /// The fixed capacity of the value sequence.
    spec fn capacity(&self) -> nat;

    /// Appends `value` on top; fails with `StackOverFlow` when the stack is
    /// at capacity.
    fn push(&mut self, value: T) -> (r: Result<(), StackError>)
        ensures
            final(self).capacity() == old(self).capacity(),
            ({
                let (s, pr) = spec_push(old(self).values(), old(self).capacity(), value);
                final(self).values() == s && r == pr
            }),
    ;

    /// Removes and returns the top value; fails with `StackUnderFlow` when
    /// the stack is empty.
    fn pop(&mut self) -> (r: Result<T, StackError>)
        ensures
            final(self).capacity() == old(self).capacity(),
            ({
                let (s, pr) = spec_pop(old(self).values());
                final(self).values() == s && r == pr
            }),
    ;

    /// Removes the top `n` values as a group, deepest first, reversed when
    /// `rev` is true; fails with `StackUnderFlow`, leaving the stack
    /// unchanged, when fewer than `n` values are present.
    fn pop_n(&mut self, n: usize, rev: bool) -> (r: Result<Vec<T>, StackError>)
        ensures
            final(self).capacity() == old(self).capacity(),
            ({
                let (s, pr) = spec_pop_n(old(self).values(), n as nat, rev);
                &&& final(self).values() == s
                &&& r matches Ok(v) ==> pr matches Ok(g) && v@ == g
                &&& r matches Err(e) ==> pr matches Err(pe) && e == pe
            }),
    ;
}

/// The value sequences held by a sequence of frame vectors.
pub open spec fn frames_view<T>(v: Seq<Vec<T>>) -> Seq<Seq<T>> {
    v.map_values(|f: Vec<T>| f@)
}

/// The auxiliary frame stack interface: the same three operation shapes,
/// applied to whole frames (chunks of values that travel as a unit).
pub trait FrameStack<T>: Sized {
    /// The frames currently held, bottom first.
    spec fn frames(&self) -> Seq<Seq<T>>;

    /// The fixed capacity of the frame sequence.
    spec fn frame_capacity(&self) -> nat;

    /// Appends a frame on top; fails with `StackOverFlow` when the frame
    /// sequence is at capacity.
    fn push_frame(&mut self, value: Vec<T>) -> (r: Result<(), StackError>)
        ensures
            final(self).frame_capacity() == old(self).frame_capacity(),
            ({
                let (s, pr) = spec_push(old(self).frames(), old(self).frame_capacity(), value@);
                final(self).frames() == s && r == pr
            }),
    ;

    /// Removes and returns the top frame; fails with `StackUnderFlow` when
    /// no frame is present.
    fn pop_frame(&mut self) -> (r: Result<Vec<T>, StackError>)
        ensures
            final(self).frame_capacity() == old(self).frame_capacity(),
            ({
                let (s, pr) = spec_pop(old(self).frames());
                &&& final(self).frames() == s
                &&& r matches Ok(v) ==> pr matches Ok(g) && v@ == g
                &&& r matches Err(e) ==> pr matches Err(pe) && e == pe
            }),
    ;

    /// Removes the top `n` frames as a group, deepest first, reversed when
    /// `rev` is true; fails with `StackUnderFlow`, leaving the frames
    /// unchanged, when fewer than `n` frames are present.
    fn pop_n_frame(&mut self, n: usize, rev: bool) -> (r: Result<Vec<Vec<T>>, StackError>)
        ensures
            final(self).frame_capacity() == old(self).frame_capacity(),
            ({
                let (s, pr) = spec_pop_n(old(self).frames(), n as nat, rev);
                &&& final(self).frames() == s
                &&& r matches Ok(v) ==> pr matches Ok(g) && frames_view(v@) == g
                &&& r matches Err(e) ==> pr matches Err(pe) && e == pe
            }),
    ;
}

/// A fixed-capacity stack of values with an auxiliary stack of frames.
#[derive(Debug)]
pub struct StackComponent<T> {
    data: Vec<T>,
    frames: Vec<Vec<T>>,
    cap: usize,
}

impl<T> StackComponent<T> {
    /// The values currently held, bottom first: what [`Stack::values`]
    /// means on this component.
    pub closed spec fn value_seq(&self) -> Seq<T> {
        self.data@
    }

    /// The frames currently held, bottom first: what [`FrameStack::frames`]
    /// means on this component.
    pub closed spec fn frame_seq(&self) -> Seq<Seq<T>> {
        frames_view(self.frames@)
    }

    /// The fixed capacity, set at construction and shared by the value and
    /// the frame sequence.
    pub closed spec fn bound(&self) -> nat {
        self.cap as nat
    }

    /// Builds an empty stack whose value and frame sequences each hold at
    /// most `size` entries; the capacity must be positive.
    pub fn new(size: usize) -> (r: Self)
        requires
            0 < size,
        ensures
            r.values() == Seq::<T>::empty(),
            r.frames() == Seq::<Seq<T>>::empty(),
            r.capacity() == size as nat,
            r.frame_capacity() == size as nat,
    {
        StackComponent { data: Vec::new(), frames: Vec::new(), cap: size }
    }
}

impl<T> Stack<T> for StackComponent<T> {
    open spec fn values(&self) -> Seq<T> {
        self.value_seq()
    }

    open spec fn capacity(&self) -> nat {
        self.bound()
    }

    fn push(&mut self, value: T) -> (r: Result<(), StackError>)
        ensures
            final(self).frame_seq() == old(self).frame_seq(),
    {
        if self.data.len() == self.cap {
            return Err(StackError::StackOverFlow);
        }
        self.data.push(value);
        Ok(())
    }

    fn pop(&mut self) -> (r: Result<T, StackError>)
        ensures
            final(self).frame_seq() == old(self).frame_seq(),
    {
        match self.data.pop() {
            Some(v) => Ok(v),
            None => Err(StackError::StackUnderFlow),
        }
    }

    fn pop_n(&mut self, n: usize, rev: bool) -> (r: Result<Vec<T>, StackError>)
        ensures
            final(self).frame_seq() == old(self).frame_seq(),
    {
        if self.data.len() < n {
            return Err(StackError::StackUnderFlow);
        }
        let group = self.data.split_off(self.data.len() - n);
        if rev {
            Ok(reversed(group))
        } else {
            Ok(group)
        }
    }
}

impl<T> FrameStack<T> for StackComponent<T> {
    open spec fn frames(&self) -> Seq<Seq<T>> {
        self.frame_seq()
    }

    open spec fn frame_capacity(&self) -> nat {
        self.bound()
    }

    fn push_frame(&mut self, value: Vec<T>) -> (r: Result<(), StackError>)
        ensures
            final(self).value_seq() == old(self).value_seq(),
    {
        if self.frames.len() == self.cap {
            return Err(StackError::StackOverFlow);
        }
        self.frames.push(value);
        Ok(())
    }

    fn pop_frame(&mut self) -> (r: Result<Vec<T>, StackError>)
        ensures
            final(self).value_seq() == old(self).value_seq(),
    {
        match self.frames.pop() {
            Some(v) => Ok(v),
            None => Err(StackError::StackUnderFlow),
        }
    }

    fn pop_n_frame(&mut self, n: usize, rev: bool) -> (r: Result<Vec<Vec<T>>, StackError>)
        ensures
            final(self).value_seq() == old(self).value_seq(),
    {
        if self.frames.len() < n {
            return Err(StackError::StackUnderFlow);
        }
        let group = self.frames.split_off(self.frames.len() - n);
        if rev {
            Ok(reversed(group))
        } else {
            Ok(group)
        }
    }
}

/// What pushing a whole sequence of values, first element first, does to a
/// bounded sequence: the final contents when every push succeeds, `None` as
/// soon as one overflows.
pub open spec fn spec_push_all<T>(s: Seq<T>, cap: nat, vs: Seq<T>) -> Option<Seq<T>>
    decreases vs.len(),
{
    if vs.len() == 0 {
        Some(s)
    } else {
        let (s2, r) = spec_push(s, cap, vs[0]);
        if r is Err {
            None
        } else {
            spec_push_all(s2, cap, vs.drop_first())
        }
    }
}

/// Pushing values never overflows while they fit under the capacity, and
/// appends them in order.
pub proof fn lemma_push_all_within_capacity<T>(s: Seq<T>, cap: nat, vs: Seq<T>)
    requires
        s.len() + vs.len() <= cap,
    ensures
        spec_push_all(s, cap, vs) == Some(s + vs),
    decreases vs.len(),
{
    if vs.len() == 0 {
        assert(s + vs =~= s);
    } else {
        lemma_push_all_within_capacity(s.push(vs[0]), cap, vs.drop_first());
        assert(s.push(vs[0]) + vs.drop_first() =~= s + vs);
    }
}

/// For every capacity, pushing that many values into a fresh stack succeeds,
/// and one push more always fails with `StackOverFlow`, changing nothing.
pub proof fn lemma_fill_then_overflow<T>(cap: nat, vs: Seq<T>, extra: T)
    requires
        vs.len() == cap,
    ensures
        spec_push_all(Seq::<T>::empty(), cap, vs) == Some(vs),
        spec_push(vs, cap, extra) == (vs, Err::<(), StackError>(StackError::StackOverFlow)),
{
    lemma_push_all_within_capacity(Seq::<T>::empty(), cap, vs);
    assert(Seq::<T>::empty() + vs =~= vs);
}

/// Popping from an empty stack always fails with `StackUnderFlow`, whatever
/// the capacity: `spec_pop` does not depend on it at all.
pub proof fn lemma_pop_empty<T>()
    ensures
        spec_pop(Seq::<T>::empty()) == (
            Seq::<T>::empty(),
            Err::<T, StackError>(StackError::StackUnderFlow),
        ),
{
}

/// Round trip: a bulk pop of the top `n` values in stack order, followed by
/// re-pushing the returned group in order, restores the original contents.
pub proof fn lemma_pop_n_round_trip<T>(s: Seq<T>, cap: nat, n: nat)
    requires
        n <= s.len(),
        s.len() <= cap,
    ensures
        ({
            let (rest, r) = spec_pop_n(s, n, false);
            &&& r is Ok
            &&& spec_push_all(rest, cap, r->Ok_0) == Some(s)
        }),
{
    let rest = s.take(s.len() - n);
    let group = s.subrange(s.len() - n, s.len() as int);
    lemma_push_all_within_capacity(rest, cap, group);
    assert(rest + group =~= s);
}

/// Reverses a vector by moving its elements, last to first, into a fresh one.
fn reversed<T>(v: Vec<T>) -> (r: Vec<T>)
    ensures
        r@ == v@.reverse(),
{
    let ghost orig = v@;
    let mut rest = v;
    let mut out: Vec<T> = Vec::new();
    while rest.len() > 0
        invariant
            out@.len() + rest@.len() == orig.len(),
            rest@ == orig.take(rest@.len() as int),
            forall|i: int| 0 <= i < out@.len() ==> out@[i] == orig[orig.len() - 1 - i],
        decreases rest.len(),
    {
        let x = rest.pop().unwrap();
        proof {
            assert(x == orig[rest@.len() as int]);
        }
        out.push(x);
    }
    proof {
        assert(out@ =~= orig.reverse());
    }
    out
}

} // verus!

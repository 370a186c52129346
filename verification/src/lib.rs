//! A growable and shrinkable stack array type.
//!
//! [`Stack<T>`] is a last-in-first-out container over an owned, contiguous,
//! growable sequence of elements. It delegates storage and growth entirely to
//! the backing vector and adds nothing but the stack discipline: `push`
//! appends at the end, and `pop`, `top` and `top_mut` always act on the most
//! recently pushed element still present.
//!
//! Every operation carries a contract over the stack's abstract view, a
//! mathematical sequence whose order is the push order (the most recently
//! pushed element is last).

use vstd::prelude::*;

verus! {

use vstd::std_specs::cmp::PartialEqSpec;

/// A growable and shrinkable stack array type.
///
/// The abstract view of a stack (`self@`) is the sequence of its elements in
/// push order: the element most recently pushed, among those still present,
/// is `self@.last()`.
#[derive(Debug, Hash, PartialOrd, Ord)]
pub struct Stack<T> {
    vec: Vec<T>,
}

impl<T> View for Stack<T> {
    type V = Seq<T>;

    closed spec fn view(&self) -> Seq<T> {
        self.vec@
    }
}

impl<T> Stack<T> {
    /// Constructs a new, empty `Stack<T>`.
    ///
    /// The stack will not allocate until elements are pushed onto it.
    #[must_use]
    pub fn new() -> (s: Self)
        ensures
            s@ == Seq::<T>::empty(),
    {
        Stack { vec: Vec::new() }
    }

    /// Appends an element to the top of the stack.
    pub fn push(&mut self, value: T)
        ensures
            final(self)@ == old(self)@.push(value),
    {
        self.vec.push(value);
    }

    /// Removes the element at the top of the stack and returns it, or `None`
    /// if the stack is empty.
    pub fn pop(&mut self) -> (r: Option<T>)
        ensures
            old(self)@.len() == 0 ==> r.is_none() && final(self)@ == old(self)@,
            old(self)@.len() > 0 ==> r == Some(old(self)@.last())
                && final(self)@ == old(self)@.drop_last(),
    {
        self.vec.pop()
    }

    /// Returns a reference to the top element in the stack, or `None` if the
    /// stack is empty.
    ///
    /// This is the most recently pushed element; it is the element that would
    /// be removed by a call to `pop`.
    pub fn top(&self) -> (r: Option<&T>)
        ensures
            self@.len() == 0 ==> r.is_none(),
            self@.len() > 0 ==> r.is_some() && *r.unwrap() == self@.last(),
    {
        self.vec.as_slice().last()
    }

    /// Returns a mutable reference to the top element in the stack, or
    /// `None` if the stack is empty.
    ///
    /// This is the most recently pushed element; it is the element that would
    /// be removed by a call to `pop`. Mutating through the reference changes
    /// that element in place and never the stack's length or order.
    pub fn top_mut(&mut self) -> (r: Option<&mut T>)
        ensures
            old(self)@.len() == 0 ==> r.is_none() && final(self)@ == old(self)@,
            old(self)@.len() > 0 ==> r.is_some() && *r.unwrap() == old(self)@.last()
                && final(self)@ == old(self)@.update(old(self)@.len() - 1, *final(r.unwrap())),
    {
        self.vec.as_mut_slice().last_mut()
    }

    /// Clears the stack, popping all values.
    ///
    /// This has no effect on the allocated capacity of the stack.
    pub fn clear(&mut self)
        ensures
            final(self)@ == Seq::<T>::empty(),
    {
        self.vec.clear();
    }

    /// Returns the number of elements on the stack, also referred to as its
    /// 'length'.
    pub fn len(&self) -> (n: usize)
        ensures
            n == self@.len(),
    {
        self.vec.len()
    }

    /// Pushes a collection of values onto the stack.
    ///
    /// Each value is pushed in turn, in the order the vector holds them: the
    /// first value ends up deepest among the newly added elements, and the
    /// last value ends up on top.
    pub fn extend(&mut self, values: Vec<T>)
        ensures
            final(self)@ == old(self)@ + values@,
    {
        for value in it: values.into_iter()
            invariant
                self@ =~= old(self)@ + it.seq().subrange(0, it.index() as int),
                it.seq() == values@,
        {
            self.push(value);
        }
        proof {
            assert(values@.subrange(0, values@.len() as int) =~= values@);
        }
    }

    /// Pushes a collection of copyable values onto the stack.
    ///
    /// Each referenced value is copied and pushed in turn, in the order the
    /// slice holds them: the first value ends up deepest among the newly
    /// added elements, and the last value ends up on top.
    pub fn extend_copied(&mut self, values: &[T]) where T: Copy
        ensures
            final(self)@ == old(self)@ + values@,
    {
        let n = values.len();
        for i in 0..n
            invariant
                n == values@.len(),
                self@ =~= old(self)@ + values@.subrange(0, i as int),
        {
            self.push(values[i]);
        }
        proof {
            assert(values@.subrange(0, values@.len() as int) =~= values@);
        }
    }

    /// Extracts a reference to the vector backing the entire stack.
    ///
    /// The vector holds the stack's elements in push order, front to back.
    pub fn as_vec(&self) -> (v: &Vec<T>)
        ensures
            v@ == self@,
    {
        &self.vec
    }

    /// Extracts a mutable reference to the vector backing the entire stack.
    ///
    /// This is a deliberate escape hatch for bulk manipulation: arbitrary
    /// mutation through this handle (inserting or removing at arbitrary
    /// positions) rewrites the stack's contents directly, and the caller
    /// takes over responsibility for whatever order the elements end up in.
    /// The stack itself enforces nothing beyond what its contract states
    /// here: its contents afterwards are exactly the vector's contents.
    pub fn as_mut_vec(&mut self) -> (v: &mut Vec<T>)
        ensures
            v@ == old(self)@,
            final(self)@ == final(v)@,
    {
        &mut self.vec
    }

    /// Returns a read-only slice view of the entire stack, in push order
    /// front to back.
    pub fn as_slice(&self) -> (s: &[T])
        ensures
            s@ == self@,
    {
        self.vec.as_slice()
    }

    /// Returns a mutable slice view of the entire stack, in push order front
    /// to back.
    ///
    /// The slice allows in-place mutation of existing elements, but not
    /// insertion or removal; the stack's length cannot change through it.
    pub fn as_mut_slice(&mut self) -> (s: &mut [T])
        ensures
            s@ == old(self)@,
            final(self)@ == final(s)@,
    {
        self.vec.as_mut_slice()
    }
}

impl<T> Default for Stack<T> {
    /// Constructs a new, empty `Stack<T>`, exactly as `new` does.
    fn default() -> (s: Self)
        ensures
            s@ == Seq::<T>::empty(),
    {
        Stack::new()
    }
}

impl<T: Clone> Clone for Stack<T> {
    /// Clones the stack element by element, preserving order and length.
    fn clone(&self) -> (res: Self)
        ensures
            res@.len() == self@.len(),
            forall|i: int| #![all_triggers] 0 <= i < self@.len() ==> cloned(self@[i], res@[i]),
    {
        Stack { vec: self.vec.clone() }
    }
}

impl<T: PartialEq> PartialEq for Stack<T> {
    /// Two stacks compare equal exactly when their element sequences compare
    /// equal in order.
    fn eq(&self, other: &Self) -> (r: bool) {
        self.vec == other.vec
    }
}

impl<T: PartialEq> vstd::std_specs::cmp::PartialEqSpecImpl for Stack<T> {
    open spec fn obeys_eq_spec() -> bool {
        T::obeys_eq_spec()
    }

    open spec fn eq_spec(&self, other: &Self) -> bool {
        &&& self@.len() == other@.len()
        &&& forall|i: int| #![auto] 0 <= i < self@.len() ==> self@[i].eq_spec(&other@[i])
    }
}

impl<T: Eq> Eq for Stack<T> {
}

/// The contents of a stack after `j` further pops, starting from contents
/// `t`: each pop removes the last (most recently pushed) element, as `pop`'s
/// contract states.
pub open spec fn after_pops<T>(t: Seq<T>, j: int) -> Seq<T>
    decreases j,
{
    if j <= 0 {
        t
    } else {
        after_pops(t, j - 1).drop_last()
    }
}

/// Popping `j` times from a stack with contents `t` leaves exactly the first
/// `t.len() - j` elements, in their original order.
pub proof fn lemma_after_pops_is_prefix<T>(t: Seq<T>, j: int)
    requires
        0 <= j <= t.len(),
    ensures
        after_pops(t, j) == t.subrange(0, t.len() - j),
    decreases j,
{
    if j == 0 {
        assert(after_pops(t, 0) =~= t.subrange(0, t.len() - 0));
    } else {
        lemma_after_pops_is_prefix(t, j - 1);
        assert(t.subrange(0, t.len() - (j - 1)).drop_last() =~= t.subrange(0, t.len() - j));
    }
}

/// Length law: a stack with contents `s` that sees `k` pushes and then
/// `j <= k` pops (and no intervening clear) holds `s.len() + k - j` elements.
/// In particular, starting from an empty stack, `k` pushes followed by `j`
/// pops leave exactly `k - j` elements.
pub proof fn lemma_len_after_pushes_and_pops<T>(s: Seq<T>, vs: Seq<T>, j: int)
    requires
        0 <= j <= vs.len(),
    ensures
        after_pops(s + vs, j).len() == s.len() + vs.len() - j,
{
    lemma_after_pops_is_prefix(s + vs, j);
}

/// LIFO law: after pushing the values `vs` in order onto a stack with
/// contents `s`, the pops that follow yield the pushed values in reverse
/// order: the pop after `j` earlier pops (for `0 <= j < vs.len()`) returns
/// `vs[vs.len() - 1 - j]`, i.e. the sequence of popped values is the last
/// pushed value first, down to the first pushed value last.
pub proof fn lemma_lifo<T>(s: Seq<T>, vs: Seq<T>, j: int)
    requires
        0 <= j < vs.len(),
    ensures
        after_pops(s + vs, j).len() > 0,
        after_pops(s + vs, j).last() == vs[vs.len() - 1 - j],
        after_pops(s + vs, j).drop_last() == after_pops(s + vs, j + 1),
{
    let t = s + vs;
    lemma_after_pops_is_prefix(t, j);
    assert(after_pops(t, j).last() == t[s.len() + vs.len() - j - 1]);
    assert(t[s.len() + vs.len() - j - 1] == vs[vs.len() - 1 - j]);
}

/// Equality law: when equality on `T` is ordinary structural equality, two
/// stacks compare equal exactly when they were built from the same push
/// sequence, that is, exactly when their views agree element for element.
pub proof fn lemma_eq_matches_contents<T: PartialEq>(s1: &Stack<T>, s2: &Stack<T>)
    requires
        vstd::laws_eq::obeys_concrete_eq::<T>(),
    ensures
        <Stack<T> as vstd::std_specs::cmp::PartialEqSpec>::obeys_eq_spec(),
        vstd::std_specs::cmp::PartialEqSpec::eq_spec(s1, s2) <==> s1@ == s2@,
{
    reveal(vstd::laws_eq::obeys_concrete_eq);
    if vstd::std_specs::cmp::PartialEqSpec::eq_spec(s1, s2) {
        assert forall|i: int| 0 <= i < s1@.len() implies s1@[i] == s2@[i] by {
            assert(s1@[i].eq_spec(&s2@[i]));
        }
        assert(s1@ =~= s2@);
    }
    if s1@ == s2@ {
        assert forall|i: int| #![auto] 0 <= i < s1@.len() implies s1@[i].eq_spec(&s2@[i]) by {
            assert(s1@[i] == s2@[i]);
        }
    }
}

} // verus!

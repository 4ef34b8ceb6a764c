//! An ordered collection with at most one element in focus.
use vstd::prelude::*;
use std::collections::VecDeque;
use std::collections::vec_deque::Iter;
use std::collections::vec_deque::IterMut;
use std::iter::Rev;
use vstd::std_specs::iter::IteratorSpec;
use crate::types::Direction;

verus! {

/// Where a new element goes.
///
/// Every element at or behind that place moves one place back.
#[derive(Debug, Clone, Copy, PartialEq, Eq, Hash, Structural)]
pub enum InsertPoint {
    /// At the given index, which may not exceed the length of the ring.
    Index(usize),
    /// At the index of the focused element.
    Focused,
    /// Behind the focused element.
    AfterFocused,
    /// One place before the focused element; at the back when the focus is
    /// on the first element.
    BeforeFocused,
    /// At the front.
    First,
    /// At the back.
    Last,
}

/// Picks one element of a ring.
pub enum Selector<F> {
    /// Any element; the focused one is taken.
    Any,
    /// The focused element.
    Focused,
    /// The element at an index.
    Index(usize),
    /// The first element for which the function answers `true`.
    Condition(F),
}

/// What a ring holds: its elements in order, and the index of the focused
/// one.
#[verifier::ext_equal]
pub struct RingView<T> {
    pub items: Seq<T>,
    pub focus: Option<int>,
}

impl<T> RingView<T> {
    /// The ring without elements.
    pub open spec fn empty() -> Self {
        RingView { items: Seq::empty(), focus: None }
    }

    /// The number of elements.
    pub open spec fn len(self) -> nat {
        self.items.len()
    }

    /// The focus, where there is one, is the index of an element.
    pub open spec fn valid(self) -> bool {
        self.focus matches Some(f) ==> 0 <= f < self.items.len()
    }

    /// The focus is the index of an element, and only the empty ring has
    /// none.
    pub open spec fn consistent(self) -> bool {
        &&& self.valid()
        &&& self.focus is None ==> self.items.len() == 0
    }

    /// The focused element.
    pub open spec fn focused(self) -> Option<T> {
        match self.focus {
            Some(f) => Some(self.items[f]),
            None => None,
        }
    }

    /// The ring with `item` at index `at`. The focus stays on the element
    /// that had it; where none had it, the new element gets it.
    pub open spec fn insert_at(self, at: int, item: T) -> Self {
        RingView {
            items: self.items.insert(at, item),
            focus: match self.focus {
                Some(f) => Some(if at <= f { f + 1 } else { f }),
                None => Some(at),
            },
        }
    }

    /// The ring with `item` at the front.
    pub open spec fn push(self, item: T) -> Self {
        self.insert_at(0, item)
    }

    /// The ring with `item` at the back.
    pub open spec fn append(self, item: T) -> Self {
        self.insert_at(self.items.len() as int, item)
    }

    /// The index that an insert point stands for.
    pub open spec fn position(self, point: InsertPoint) -> int {
        let len = self.items.len() as int;
        match point {
            InsertPoint::Index(i) => i as int,
            InsertPoint::Focused => match self.focus {
                Some(f) => f,
                None => len,
            },
            InsertPoint::AfterFocused => match self.focus {
                Some(f) => f + 1,
                None => len,
            },
            InsertPoint::BeforeFocused => match self.focus {
                Some(f) => if f == 0 { len } else { f - 1 },
                None => len,
            },
            InsertPoint::First => 0,
            InsertPoint::Last => len,
        }
    }

    /// Whether an insert point names a place of this ring.
    pub open spec fn admits(self, point: InsertPoint) -> bool {
        point matches InsertPoint::Index(i) ==> i <= self.items.len()
    }

    /// The ring with `item` where the insert point says.
    pub open spec fn insert(self, point: InsertPoint, item: T) -> Self {
        self.insert_at(self.position(point), item)
    }

    /// The focus of a ring of `len` elements that had its focus on `f`
    /// before some elements left: unchanged where it still names an
    /// element, else on the last element, and gone with the last element.
    pub open spec fn clamp(f: int, len: int) -> Option<int> {
        if f < len {
            Some(f)
        } else if len > 0 {
            Some(len - 1)
        } else {
            None
        }
    }

    /// The ring without the element at `idx`; unchanged where there is no
    /// such element. The focus follows the element that had it. Where that
    /// element is the one that leaves, the focus keeps its index, and moves
    /// to the new last element where the index has gone.
    pub open spec fn remove(self, idx: int) -> Self {
        if 0 <= idx < self.items.len() {
            RingView {
                items: self.items.remove(idx),
                focus: match self.focus {
                    Some(f) => if f > idx {
                        Some(f - 1)
                    } else {
                        Self::clamp(f, self.items.len() - 1)
                    },
                    None => None,
                },
            }
        } else {
            self
        }
    }

    /// The ring with the elements at 0 and `idx` exchanged.
    pub open spec fn move_front(self, idx: int) -> Self {
        RingView { items: self.items.update(0, self.items[idx]).update(idx, self.items[0]), ..self }
    }

    /// Whether one more step in the direction leaves the ring at one end
    /// and enters it at the other.
    pub open spec fn would_wrap(self, direction: Direction) -> bool {
        match direction {
            Direction::Forward => self.focus == Some(self.items.len() - 1),
            Direction::Backward => self.focus == Some(0int),
        }
    }

    /// The focus one step further, entering at the other end where it
    /// leaves at one. Nothing changes where nothing is focused.
    pub open spec fn cycle_focus(self, direction: Direction) -> Self {
        match self.focus {
            Some(f) => RingView {
                focus: Some(
                    match direction {
                        Direction::Forward => if f == self.items.len() - 1 { 0 } else { f + 1 },
                        Direction::Backward => if f == 0 { self.items.len() - 1 } else { f - 1 },
                    },
                ),
                ..self
            },
            None => self,
        }
    }

    /// The elements moved `step` places: forward, towards the back, with
    /// those that leave at the back entering at the front; backward, the
    /// other way round.
    pub open spec fn rotate_by(self, step: int, direction: Direction) -> Self {
        let len = self.items.len() as int;
        RingView {
            items: match direction {
                Direction::Forward => self.items.subrange(len - step, len) + self.items.subrange(
                    0,
                    len - step,
                ),
                Direction::Backward => self.items.subrange(step, len) + self.items.subrange(
                    0,
                    step,
                ),
            },
            ..self
        }
    }

    /// The elements moved one place, and the focus with them.
    pub open spec fn rotate(self, direction: Direction) -> Self {
        if self.items.len() == 0 {
            self
        } else {
            self.rotate_by(1, direction).cycle_focus(direction)
        }
    }

    /// The focus on `idx`; unchanged where there is no such element.
    pub open spec fn set_focused(self, idx: int) -> Self {
        if 0 <= idx < self.items.len() {
            RingView { focus: Some(idx), ..self }
        } else {
            self
        }
    }

    /// The ring without focus.
    pub open spec fn unset_focused(self) -> Self {
        RingView { focus: None, ..self }
    }

    /// The element at `idx` replaced.
    pub open spec fn with_item(self, idx: int, item: T) -> Self {
        RingView { items: self.items.update(idx, item), ..self }
    }

    /// Whether `r` is the index of the focus, or `None` where there is no
    /// focus.
    pub open spec fn focus_is(self, r: Option<usize>) -> bool {
        match r {
            Some(i) => self.focus == Some(i as int),
            None => self.focus is None,
        }
    }

    /// Whether `r` is what the selector picks: the focus; the index itself
    /// where it names an element; the first element of which the condition
    /// holds, with `None` where it holds of none.
    pub open spec fn selects<F: Fn(&T) -> bool>(self, s: Selector<F>, r: Option<usize>) -> bool {
        match s {
            Selector::Any => self.focus_is(r),
            Selector::Focused => self.focus_is(r),
            Selector::Index(i) => r == (if i < self.items.len() {
                Some(i)
            } else {
                None
            }),
            Selector::Condition(f) => self.first_match(f, r),
        }
    }

    /// Whether `r` is the index of the first element of which `cond` holds.
    pub open spec fn first_match<F: Fn(&T) -> bool>(self, cond: F, r: Option<usize>) -> bool {
        match r {
            Some(i) => {
                &&& i < self.items.len()
                &&& call_ensures(cond, (&self.items[i as int],), true)
                &&& forall|j: int| 0 <= j < i ==> call_ensures(cond, (&#[trigger] self.items[j],), false)
            },
            None => forall|j: int|
                0 <= j < self.items.len() ==> call_ensures(cond, (&#[trigger] self.items[j],), false),
        }
    }

    /// Whether `cond` may be asked of every element.
    pub open spec fn accepts<F: Fn(&T) -> bool>(self, cond: F) -> bool {
        forall|j: int| 0 <= j < self.items.len() ==> call_requires(cond, (&#[trigger] self.items[j],))
    }

    /// Whether the selector may be put to this ring.
    pub open spec fn admits_selector<F: Fn(&T) -> bool>(self, s: Selector<F>) -> bool {
        s matches Selector::Condition(f) ==> self.accepts(f)
    }

    /// The ring after one operation. An insert at an index beyond the
    /// length is not made.
    pub open spec fn apply(self, op: RingOp<T>) -> Self {
        match op {
            RingOp::Push(item) => self.push(item),
            RingOp::Append(item) => self.append(item),
            RingOp::Insert(point, item) => if self.admits(point) {
                self.insert(point, item)
            } else {
                self
            },
            RingOp::Remove(idx) => self.remove(idx as int),
        }
    }

    /// The ring after a sequence of operations, first to last.
    pub open spec fn apply_all(self, ops: Seq<RingOp<T>>) -> Self
        decreases ops.len(),
    {
        if ops.len() == 0 {
            self
        } else {
            self.apply_all(ops.drop_last()).apply(ops.last())
        }
    }
}

/// An operation that adds an element to a ring or takes one out.
pub enum RingOp<T> {
    Push(T),
    Append(T),
    Insert(InsertPoint, T),
    Remove(usize),
}

/// An operation that adds or removes an element leaves the focus on an
/// element, and leaves a ring without focus only where it is empty.
pub proof fn lemma_apply_consistent<T>(ring: RingView<T>, op: RingOp<T>)
    requires
        ring.consistent(),
    ensures
        ring.apply(op).consistent(),
{
}

/// Whatever elements are pushed, inserted and removed, in whatever order,
/// starting from the empty ring: the focus is the index of an element, and
/// there is none only while the ring is empty.
pub proof fn lemma_focus_invariant<T>(ops: Seq<RingOp<T>>)
    ensures
        RingView::<T>::empty().apply_all(ops).consistent(),
    decreases ops.len(),
{
    if ops.len() > 0 {
        lemma_focus_invariant(ops.drop_last());
        lemma_apply_consistent(RingView::<T>::empty().apply_all(ops.drop_last()), ops.last());
    }
}

/// An element that enters a ring does not take the focus from the element
/// that has it.
pub proof fn lemma_insert_keeps_focused<T>(ring: RingView<T>, point: InsertPoint, item: T)
    requires
        ring.valid(),
        ring.focus is Some,
        ring.admits(point),
    ensures
        ring.insert(point, item).focused() == ring.focused(),
        ring.push(item).focused() == ring.focused(),
        ring.append(item).focused() == ring.focused(),
{
}

/// An element that leaves a ring leaves the focus on the element that has
/// it, unless it has the focus itself.
pub proof fn lemma_remove_keeps_focused<T>(ring: RingView<T>, idx: int)
    requires
        ring.valid(),
        ring.focus is Some,
        ring.focus != Some(idx),
    ensures
        ring.remove(idx).focused() == ring.focused(),
{
}

/// With at least two elements, a step backward from the first element
/// lands on the last, and a step forward from the last lands on the first.
pub proof fn lemma_cycle_wraps<T>(ring: RingView<T>)
    requires
        ring.items.len() >= 2,
    ensures
        ring.set_focused(0).cycle_focus(Direction::Backward).focus == Some(ring.items.len() - 1),
        ring.set_focused(ring.items.len() - 1).cycle_focus(Direction::Forward).focus == Some(0int),
{
}

/// Rotating a ring keeps the element that is in focus.
pub proof fn lemma_rotate_keeps_focused<T>(ring: RingView<T>, direction: Direction)
    requires
        ring.valid(),
    ensures
        ring.rotate(direction).valid(),
        ring.rotate(direction).focused() == ring.focused(),
        ring.rotate(direction).items.len() == ring.items.len(),
{
}

/// `VecDeque::swap`: exchanges the elements at two indices, both of which
/// must exist.
#[verifier::external_body]
fn deque_swap<T>(v: &mut VecDeque<T>, i: usize, j: usize)
    requires
        i < old(v)@.len(),
        j < old(v)@.len(),
    ensures
        final(v)@ == old(v)@.update(i as int, old(v)@[j as int]).update(j as int, old(v)@[i as int]),
{
    v.swap(i, j)
}

/// `VecDeque::rotate_left`: the first `n` elements leave at the front and
/// enter at the back, in their order; `n` may not exceed the length.
#[verifier::external_body]
fn deque_rotate_left<T>(v: &mut VecDeque<T>, n: usize)
    requires
        n <= old(v)@.len(),
    ensures
        final(v)@ == old(v)@.subrange(n as int, old(v)@.len() as int) + old(v)@.subrange(
            0,
            n as int,
        ),
{
    v.rotate_left(n)
}

/// `VecDeque::rotate_right`: the last `n` elements leave at the back and
/// enter at the front, in their order; `n` may not exceed the length.
#[verifier::external_body]
fn deque_rotate_right<T>(v: &mut VecDeque<T>, n: usize)
    requires
        n <= old(v)@.len(),
    ensures
        final(v)@ == old(v)@.subrange(old(v)@.len() - n, old(v)@.len() as int)
            + old(v)@.subrange(0, old(v)@.len() - n),
{
    v.rotate_right(n)
}

/// `VecDeque::get_mut`: a mutable reference to the element at an index,
/// where there is one. Nothing but that element can change through it.
#[verifier::external_body]
fn deque_get_mut<T>(v: &mut VecDeque<T>, i: usize) -> (r: Option<&mut T>)
    ensures
        match r {
            Some(e) => {
                &&& i < old(v)@.len()
                &&& *e == old(v)@[i as int]
                &&& final(v)@ == old(v)@.update(i as int, *final(e))
            },
            None => i >= old(v)@.len() && final(v)@ == old(v)@,
        },
{
    v.get_mut(i)
}

/// The iterator that `VecDeque::iter_mut` returns.
#[verifier::external_type_specification]
#[verifier::external_body]
#[verifier::reject_recursive_types(T)]
pub struct ExIterMut<'a, T: 'a>(IterMut<'a, T>);

/// `VecDeque::iter_mut`: an iterator that stands at its beginning, returns
/// a mutable reference to each element, front to back, and then ends.
/// What is written through the reference to an element is that element
/// afterwards, and the number of elements stays.
#[verifier::external_body]
fn deque_iter_mut<T>(v: &mut VecDeque<T>) -> (r: IterMut<'_, T>)
    ensures
        r.obeys_prophetic_iter_laws(),
        r.initial_value_relation(&r),
        r.remaining().len() == old(v)@.len(),
        forall|i: int| 0 <= i < old(v)@.len() ==> *(#[trigger] r.remaining()[i]) == old(v)@[i],
        final(v)@.len() == old(v)@.len(),
        forall|i: int|
            0 <= i < old(v)@.len() ==> final(v)@[i] == *final(#[trigger] r.remaining()[i]),
{
    v.iter_mut()
}

/// A ring of elements, one of which can be in focus.
#[derive(Debug, Clone, Default)]
pub struct Ring<T> {
    /// The elements, first to last.
    items: VecDeque<T>,
    /// The index of the focused element.
    focused: Option<usize>,
}

impl<T> View for Ring<T> {
    type V = RingView<T>;

    /// An index that names no element counts as no focus.
    closed spec fn view(&self) -> RingView<T> {
        RingView {
            items: self.items@,
            focus: match self.focused {
                Some(i) => if i < self.items@.len() { Some(i as int) } else { None },
                None => None,
            },
        }
    }
}

impl<T> Ring<T> {
    /// The focus of a ring is always the index of one of its elements.
    pub proof fn lemma_valid(&self)
        ensures
            self@.valid(),
    {
    }

    /// A ring without elements.
    pub fn new() -> (ring: Self)
        ensures
            ring@ == RingView::<T>::empty(),
    {
        Self { items: VecDeque::new(), focused: None }
    }

    #[inline(always)]
    pub fn len(&self) -> (n: usize)
        ensures
            n == self@.items.len(),
    {
        self.items.len()
    }

    #[inline(always)]
    pub fn is_empty(&self) -> (b: bool)
        ensures
            b == (self@.items.len() == 0),
    {
        self.items.len() == 0
    }

    /// The index of the focused element.
    pub fn focused_idx(&self) -> (r: Option<usize>)
        ensures
            match r {
                Some(i) => self@.focus == Some(i as int),
                None => self@.focus is None,
            },
    {
        match self.focused {
            Some(i) => if i < self.items.len() { Some(i) } else { None },
            None => None,
        }
    }

    /// Whether moving the focus in the given direction would wrap to the
    /// front or to the back.
    #[inline]
    fn would_wrap(&self, direction: Direction) -> (b: bool)
        ensures
            b == self@.would_wrap(direction),
    {
        match self.focused_idx() {
            Some(i) => match direction {
                Direction::Forward => i == self.items.len() - 1,
                Direction::Backward => i == 0,
            },
            None => false,
        }
    }

    /// Exchanges the element at `idx` with the first one.
    pub fn move_front(&mut self, idx: usize)
        requires
            idx < old(self)@.items.len(),
        ensures
            final(self)@ == old(self)@.move_front(idx as int),
    {
        if idx != 0 {
            deque_swap(&mut self.items, 0, idx)
        }
    }

    fn insert_at(&mut self, at: usize, item: T)
        requires
            at <= old(self)@.items.len(),
        ensures
            final(self)@ == old(self)@.insert_at(at as int, item),
    {
        let focus = self.focused_idx();
        self.items.insert(at, item);
        let len = self.items.len();
        self.focused = match focus {
            Some(f) => if at <= f { Some(f + 1) } else { Some(f) },
            None => Some(at),
        };
    }

    /// Puts an element at the front.
    pub fn push(&mut self, item: T)
        ensures
            final(self)@ == old(self)@.push(item),
    {
        let focus = self.focused_idx();
        self.items.push_front(item);
        let len = self.items.len();
        self.focused = match focus {
            Some(f) => Some(f + 1),
            None => Some(0),
        };
    }

    /// Puts an element at the back.
    pub fn append(&mut self, item: T)
        ensures
            final(self)@ == old(self)@.append(item),
    {
        let focus = self.focused_idx();
        let len = self.items.len();
        self.items.push_back(item);
        if focus.is_none() {
            self.focused = Some(len);
        }
    }

    /// Takes the element at `idx`, which must exist, out and hands it
    /// over. The elements that stay keep their order, and the focus moves
    /// as it does when an element is removed.
    pub fn pop(&mut self, idx: usize) -> (item: T)
        requires
            idx < old(self)@.items.len(),
        ensures
            item == old(self)@.items[idx as int],
            final(self)@ == old(self)@.remove(idx as int),
    {
        self.remove(idx).unwrap()
    }

    /// Sets the focus that a ring has after elements left it.
    fn refocus(&mut self, focus: Option<usize>)
        ensures
            final(self)@.items == old(self)@.items,
            final(self)@.focus == (match focus {
                Some(f) => RingView::<T>::clamp(f as int, old(self)@.items.len() as int),
                None => None,
            }),
    {
        let len = self.items.len();
        self.focused = match focus {
            Some(f) => if f < len {
                Some(f)
            } else if len > 0 {
                Some(len - 1)
            } else {
                None
            },
            None => None,
        };
    }

    /// Puts an element where the insert point says.
    ///
    /// Where the point speaks of the focus and nothing is focused, the
    /// element goes to the back.
    pub fn insert(&mut self, point: InsertPoint, item: T)
        requires
            old(self)@.admits(point),
        ensures
            final(self)@ == old(self)@.insert(point, item),
    {
        let len = self.items.len();
        let at = match point {
            InsertPoint::Index(idx) => idx,
            InsertPoint::Focused => match self.focused_idx() {
                Some(idx) => idx,
                None => len,
            },
            InsertPoint::AfterFocused => match self.focused_idx() {
                Some(idx) => if self.would_wrap(Direction::Forward) { len } else { idx + 1 },
                None => len,
            },
            InsertPoint::BeforeFocused => match self.focused_idx() {
                Some(idx) => if self.would_wrap(Direction::Backward) { len } else { idx - 1 },
                None => len,
            },
            InsertPoint::First => 0,
            InsertPoint::Last => len,
        };
        self.insert_at(at, item)
    }

    /// Takes the element at `idx` out and hands it over; `None` where there
    /// is no such element.
    pub fn remove(&mut self, idx: usize) -> (removed: Option<T>)
        ensures
            removed == (if idx < old(self)@.items.len() {
                Some(old(self)@.items[idx as int])
            } else {
                None
            }),
            final(self)@ == old(self)@.remove(idx as int),
    {
        let focus = self.focused_idx();
        let removed = self.items.remove(idx);
        if removed.is_some() {
            match focus {
                Some(f) => if f > idx {
                    self.focused = Some(f - 1);
                } else {
                    self.refocus(focus);
                },
                None => {},
            }
        }
        removed
    }

    /// The element at `idx`.
    pub fn get(&self, idx: usize) -> (r: Option<&T>)
        ensures
            r == (if idx < self@.items.len() {
                Some(&self@.items[idx as int])
            } else {
                None
            }),
    {
        if idx < self.items.len() {
            Some(&self.items[idx])
        } else {
            None
        }
    }

    /// A mutable reference to the element at `idx`. What is written through
    /// it is the element of the ring afterwards.
    pub fn get_mut(&mut self, idx: usize) -> (r: Option<&mut T>)
        ensures
            match r {
                Some(e) => idx < old(self)@.items.len() && *e == old(self)@.items[idx as int]
                    && final(self)@ == old(self)@.with_item(idx as int, *final(e)),
                None => idx >= old(self)@.items.len() && final(self)@ == old(self)@,
            },
    {
        deque_get_mut(&mut self.items, idx)
    }

    /// The elements from first to last.
    pub fn iter(&self) -> (it: Iter<'_, T>)
        ensures
            it.remaining() == self@.items.as_ref(),
            it.obeys_prophetic_iter_laws(),
            it.decrease() is Some,
            it.initial_value_relation(&it),
    {
        broadcast use vstd::std_specs::vecdeque::group_vec_dequeue_axioms;

        self.items.iter()
    }

    /// The elements from first to last, each open to change: the iterator
    /// returns a mutable reference to each element in turn, and what is
    /// written through it is that element of the ring afterwards. Neither
    /// the number of elements nor the focus changes.
    pub fn iter_mut(&mut self) -> (it: IterMut<'_, T>)
        ensures
            it.obeys_prophetic_iter_laws(),
            it.initial_value_relation(&it),
            it.remaining().len() == old(self)@.items.len(),
            forall|i: int|
                0 <= i < old(self)@.items.len() ==> *(#[trigger] it.remaining()[i])
                    == old(self)@.items[i],
            final(self)@.items.len() == old(self)@.items.len(),
            forall|i: int|
                0 <= i < old(self)@.items.len() ==> final(self)@.items[i]
                    == *final(#[trigger] it.remaining()[i]),
            final(self)@.focus == old(self)@.focus,
    {
        deque_iter_mut(&mut self.items)
    }

    /// The elements from last to first.
    pub fn iter_rev(&self) -> (it: Rev<Iter<'_, T>>)
        ensures
            it.remaining() == self@.items.as_ref().reverse(),
            it.obeys_prophetic_iter_laws(),
            it.decrease() is Some,
            it.initial_value_relation(&it),
    {
        broadcast use vstd::std_specs::vecdeque::group_vec_dequeue_axioms;
        broadcast use vstd::std_specs::iter::rev_postcondition;

        self.items.iter().rev()
    }

    /// The elements from last to first, each open to change: the iterator
    /// returns a mutable reference to each element in turn, the last
    /// first, and what is written through it is that element of the ring
    /// afterwards. Neither the number of elements nor the focus changes.
    pub fn iter_rev_mut(&mut self) -> (it: Rev<IterMut<'_, T>>)
        ensures
            it.initial_value_relation(&it),
            it.remaining().len() == old(self)@.items.len(),
            forall|i: int|
                0 <= i < old(self)@.items.len() ==> *(#[trigger] it.remaining()[i])
                    == old(self)@.items[old(self)@.items.len() - 1 - i],
            final(self)@.items.len() == old(self)@.items.len(),
            forall|i: int|
                0 <= i < old(self)@.items.len() ==> final(self)@.items[old(self)@.items.len() - 1
                    - i] == *final(#[trigger] it.remaining()[i]),
            final(self)@.focus == old(self)@.focus,
    {
        broadcast use vstd::std_specs::iter::rev_postcondition;

        deque_iter_mut(&mut self.items).rev()
    }

    /// Moves every element one place in the given direction, the focus
    /// with them, so that the same element stays in focus.
    pub fn rotate(&mut self, direction: Direction)
        ensures
            final(self)@ == old(self)@.rotate(direction),
    {
        if self.items.len() > 0 {
            self.rotate_by(1, direction);
            self.cycle_focus(direction);
        }
    }

    /// Moves every element `step` places in the given direction. The focus
    /// keeps its index.
    pub fn rotate_by(&mut self, step: usize, direction: Direction)
        requires
            step <= old(self)@.items.len(),
        ensures
            final(self)@ == old(self)@.rotate_by(step as int, direction),
    {
        match direction {
            Direction::Forward => {
                deque_rotate_right(&mut self.items, step);
            },
            Direction::Backward => {
                deque_rotate_left(&mut self.items, step);
            },
        }
    }

    /// Moves the focus by one in the given direction.
    ///
    /// Does nothing where nothing is in focus.
    pub fn cycle_focus(&mut self, direction: Direction)
        ensures
            final(self)@ == old(self)@.cycle_focus(direction),
    {
        let len = self.len();
        match direction {
            Direction::Forward => {
                if let Some(i) = self.focused_idx() {
                    if self.would_wrap(Direction::Forward) {
                        self.focused = Some(0)
                    } else {
                        self.focused = Some(i + 1)
                    }
                }
            },
            Direction::Backward => {
                if let Some(i) = self.focused_idx() {
                    if self.would_wrap(Direction::Backward) {
                        self.focused = Some(len - 1)
                    } else {
                        self.focused = Some(i - 1)
                    }
                }
            },
        }
    }

    /// Takes the focus from the ring.
    #[inline(always)]
    pub fn unset_focused(&mut self)
        ensures
            final(self)@ == old(self)@.unset_focused(),
    {
        self.focused = None
    }

    /// The focused element.
    pub fn focused(&self) -> (r: Option<&T>)
        ensures
            r == (match self@.focus {
                Some(f) => Some(&self@.items[f]),
                None => None,
            }),
    {
        if let Some(i) = self.focused_idx() {
            return self.get(i)
        }
        None
    }

    /// A mutable reference to the focused element.
    pub fn focused_mut(&mut self) -> (r: Option<&mut T>)
        ensures
            match r {
                Some(e) => {
                    &&& old(self)@.focus matches Some(f)
                    &&& *e == old(self)@.items[f]
                    &&& final(self)@ == old(self)@.with_item(f, *final(e))
                },
                None => old(self)@.focus is None && final(self)@ == old(self)@,
            },
    {
        if let Some(i) = self.focused_idx() {
            return self.get_mut(i)
        }
        None
    }

    /// Gives the focus to the element at `idx`, where there is one.
    pub fn set_focused(&mut self, idx: usize)
        ensures
            final(self)@ == old(self)@.set_focused(idx as int),
    {
        if idx < self.items.len() {
            self.focused = Some(idx);
        }
    }

    /// Calls `f` on the element that the selector picks, if it picks one.
    pub fn apply_to<C: Fn(&T) -> bool, F: FnMut(&mut T)>(&mut self, s: Selector<C>, mut f: F)
        requires
            old(self)@.admits_selector(s),
            forall|e: &mut T| call_requires(f, (e,)),
        ensures
            exists|idx: Option<usize>| #[trigger]
                old(self)@.selects(s, idx) && (match idx {
                    Some(i) => exists|e: &mut T|
                        *e == old(self)@.items[i as int] && call_ensures(f, (e,), ()) && final(self)@
                            == old(self)@.with_item(i as int, *final(e)),
                    None => final(self)@ == old(self)@,
                }),
    {
        let idx = self.index(s);
        if let Some(i) = idx {
            match self.get_mut(i) {
                Some(e) => f(e),
                None => {},
            }
        }
    }

    /// The first element of which `cond` holds, with its index.
    fn element_by<C: Fn(&T) -> bool>(&self, cond: C) -> (r: Option<(usize, &T)>)
        requires
            self@.accepts(cond),
        ensures
            match r {
                Some((i, e)) => self@.first_match(cond, Some(i)) && *e == self@.items[i as int],
                None => self@.first_match(cond, None),
            },
    {
        let mut i: usize = 0;
        while i < self.items.len()
            invariant
                i <= self.items@.len(),
                self@.accepts(cond),
                forall|j: int| 0 <= j < i ==> call_ensures(cond, (&#[trigger] self@.items[j],), false),
            decreases self.items@.len() - i,
        {
            let e = &self.items[i];
            assert(*e == self@.items[i as int]);
            if cond(e) {
                return Some((i, e));
            }
            i += 1;
        }
        None
    }

    /// The first element of which `cond` holds, open to change, with its
    /// index.
    fn element_by_mut<C: Fn(&T) -> bool>(&mut self, cond: C) -> (r: Option<(usize, &mut T)>)
        requires
            old(self)@.accepts(cond),
        ensures
            match r {
                Some((i, e)) => old(self)@.first_match(cond, Some(i)) && *e == old(self)@.items[i as int]
                    && final(self)@ == old(self)@.with_item(i as int, *final(e)),
                None => old(self)@.first_match(cond, None) && final(self)@ == old(self)@,
            },
    {
        let found = match self.element_by(cond) {
            Some((i, _)) => Some(i),
            None => None,
        };
        match found {
            Some(i) => match self.get_mut(i) {
                Some(e) => Some((i, e)),
                None => None,
            },
            None => None,
        }
    }

    /// The index of the element that the selector picks.
    pub fn index<C: Fn(&T) -> bool>(&self, s: Selector<C>) -> (r: Option<usize>)
        requires
            self@.admits_selector(s),
        ensures
            self@.selects(s, r),
    {
        match s {
            Selector::Any | Selector::Focused => self.focused_idx(),
            Selector::Index(i) => {
                if i < self.len() {
                    Some(i)
                } else {
                    None
                }
            },
            Selector::Condition(f) => match self.element_by(f) {
                Some((i, _)) => Some(i),
                None => None,
            },
        }
    }
}

} // verus!

//! Walking a collection of the host, one item at a time
//!
//! The host's own enumerator is not used: a walk asks for one index after the other.

use std::marker::PhantomData;

use vstd::prelude::*;

use crate::sys::LONG;
use crate::wrappers::{Error, Iterable};

verus! {

/// Where a walk over a collection stands: the size that the collection had when the walk
/// began, the last index that was asked for from the front, and the next index to ask for
/// from the back.
pub struct CursorState {
    pub count: int,
    pub front: int,
    pub back: int,
}

impl CursorState {
    /// A walk stays within the size it began with.
    pub open spec fn wf(self) -> bool {
        &&& 0 <= self.count <= i32::MAX
        &&& 0 <= self.front <= self.count
        &&& 0 <= self.back <= self.count
    }

    /// The beginning of a walk over a collection of `count` items. A negative size is
    /// the size of an empty collection.
    pub open spec fn start(count: int) -> CursorState {
        let size = if count < 0 { 0 } else { count };
        CursorState { count: size, front: 0, back: size }
    }

    /// The index that the next step from the front asks for, if there is one.
    pub open spec fn forward_index(self) -> Option<LONG> {
        if self.front < self.count {
            Some((self.front + 1) as LONG)
        } else {
            None
        }
    }

    /// The walk after a step from the front.
    pub open spec fn advanced(self) -> CursorState {
        if self.front < self.count {
            CursorState { front: self.front + 1, ..self }
        } else {
            self
        }
    }

    /// The index that the next step from the back asks for, if there is one.
    pub open spec fn backward_index(self) -> Option<LONG> {
        if self.back >= 1 {
            Some(self.back as LONG)
        } else {
            None
        }
    }

    /// The walk after a step from the back.
    pub open spec fn retreated(self) -> CursorState {
        if self.back >= 1 {
            CursorState { back: self.back - 1, ..self }
        } else {
            self
        }
    }

    /// All the indices that steps from the front ask for, from here until there is none left.
    pub open spec fn forward_run(self) -> Seq<int>
        decreases self.count - self.front,
    {
        if self.front < self.count {
            seq![self.front + 1] + self.advanced().forward_run()
        } else {
            Seq::empty()
        }
    }

    /// All the indices that steps from the back ask for, from here until there is none left.
    pub open spec fn backward_run(self) -> Seq<int>
        decreases self.back,
    {
        if self.back >= 1 {
            seq![self.back] + self.retreated().backward_run()
        } else {
            Seq::empty()
        }
    }
}

/// The indices of a walk over a collection, without the collection.
pub struct Cursor {
    count: LONG,
    front: LONG,
    back: LONG,
}

impl View for Cursor {
    type V = CursorState;

    closed spec fn view(&self) -> CursorState {
        CursorState { count: self.count as int, front: self.front as int, back: self.back as int }
    }
}

impl Cursor {
    #[verifier::type_invariant]
    spec fn inv(self) -> bool {
        self@.wf()
    }

    /// Begins a walk over a collection of `count` items.
    pub fn new(count: LONG) -> (cursor: Cursor)
        ensures
            cursor@ == CursorState::start(count as int),
            cursor@.wf(),
    {
        let size: LONG = if count < 0 { 0 } else { count };
        Cursor { count: size, front: 0, back: size }
    }

    /// The size that the collection had when the walk began.
    pub fn len(&self) -> (len: usize)
        ensures
            len == self@.count,
            self@.wf(),
    {
        proof {
            use_type_invariant(self);
        }
        self.count as usize
    }

    /// Steps from the front: gives the index to ask for, or `None` once the last one was given.
    pub fn advance(&mut self) -> (index: Option<LONG>)
        ensures
            final(self)@ == old(self)@.advanced(),
            final(self)@.wf(),
            index == old(self)@.forward_index(),
            index.is_some() ==> 1 <= index.unwrap() <= old(self)@.count,
    {
        proof {
            use_type_invariant(&*self);
        }
        if self.front < self.count {
            self.front = self.front + 1;
            Some(self.front)
        } else {
            None
        }
    }

    /// Steps from the back: gives the index to ask for, or `None` once the first one was given.
    pub fn retreat(&mut self) -> (index: Option<LONG>)
        ensures
            final(self)@ == old(self)@.retreated(),
            final(self)@.wf(),
            index == old(self)@.backward_index(),
            index.is_some() ==> 1 <= index.unwrap() <= old(self)@.count,
    {
        proof {
            use_type_invariant(&*self);
        }
        if self.back >= 1 {
            let index: LONG = self.back;
            self.back = self.back - 1;
            Some(index)
        } else {
            None
        }
    }
}

/// From any point of a walk, the steps from the front ask for the indices after the last
/// one given, each once and in rising order, up to the size that the walk began with.
pub proof fn lemma_forward_run(state: CursorState)
    requires
        state.wf(),
    ensures
        state.forward_run() =~= Seq::new(
            (state.count - state.front) as nat,
            |i: int| state.front + 1 + i,
        ),
    decreases state.count - state.front,
{
    if state.front < state.count {
        lemma_forward_run(state.advanced());
    }
}

/// From any point of a walk, the steps from the back ask for the indices from the next
/// one down to 1, each once and in falling order.
pub proof fn lemma_backward_run(state: CursorState)
    requires
        state.wf(),
    ensures
        state.backward_run() =~= Seq::new(state.back as nat, |i: int| state.back - i),
    decreases state.back,
{
    if state.back >= 1 {
        lemma_backward_run(state.retreated());
    }
}

/// A walk over a collection of `count` items asks from the front for exactly the indices
/// 1, 2, ..., `count`, and from the back for exactly `count`, `count` - 1, ..., 1.
pub proof fn lemma_walk_order(count: LONG)
    requires
        count >= 0,
    ensures
        CursorState::start(count as int).forward_run() =~= Seq::new(
            count as nat,
            |i: int| i + 1,
        ),
        CursorState::start(count as int).backward_run() =~= Seq::new(
            count as nat,
            |i: int| count - i,
        ),
{
    lemma_forward_run(CursorState::start(count as int));
    lemma_backward_run(CursorState::start(count as int));
}

/// The two directions of a walk do not use each other up: a step from one end leaves
/// what the other end still has to give as it was.
pub proof fn lemma_directions_are_independent(state: CursorState)
    requires
        state.wf(),
    ensures
        state.advanced().wf(),
        state.retreated().wf(),
        state.advanced().backward_run() == state.backward_run(),
        state.retreated().forward_run() == state.forward_run(),
{
    lemma_forward_run(state);
    lemma_forward_run(state.retreated());
    lemma_backward_run(state);
    lemma_backward_run(state.advanced());
}

/// A walk over a collection of the host, from either end
///
/// The walk knows the size that the collection had when the walk began, and asks for no
/// index beyond it. The collection itself is asked at every step, so an item that is gone
/// by then ends the walk early.
pub struct Iterator<'a, Obj, Item> {
    data: &'a Obj,
    cursor: Cursor,
    items: PhantomData<Item>,
}

impl<'a, Obj, Items> Iterator<'a, Obj, Items> where Obj: Iterable<Item = Items> {
    /// The collection that is walked.
    pub closed spec fn data(self) -> &'a Obj {
        self.data
    }

    /// Where the walk stands.
    pub closed spec fn cursor(self) -> CursorState {
        self.cursor@
    }

    /// Begins a walk over a collection that has just said that it holds `count` items.
    pub fn with_count(data: &'a Obj, count: LONG) -> (walk: Self)
        ensures
            walk.data() == data,
            walk.cursor() == CursorState::start(count as int),
    {
        Self { data, cursor: Cursor::new(count), items: PhantomData }
    }

    /// Begins a walk over a collection, after asking the collection for its size.
    pub fn new(data: &'a Obj) -> (outcome: Result<Self, Error>)
        ensures
            match outcome {
                Ok(walk) => walk.data() == data && exists|count: LONG|
                    #[trigger] data.count_answer(Ok(count)) && walk.cursor()
                        == CursorState::start(count as int),
                Err(error) => data.count_answer(Err(error)),
            },
    {
        match data.Count() {
            Ok(count) => Ok(Self::with_count(data, count)),
            Err(error) => Err(error),
        }
    }

    /// The next item from the front, or `None` if there is no index left to ask for or
    /// the collection has no item there any more.
    pub fn next(&mut self) -> (item: Option<Items>)
        ensures
            final(self).data() == old(self).data(),
            final(self).cursor() == old(self).cursor().advanced(),
            match old(self).cursor().forward_index() {
                None => item.is_none(),
                Some(index) => match item {
                    Some(found) => old(self).data().item_answer(index, Ok(found)),
                    None => exists|error: Error| #[trigger]
                        old(self).data().item_answer(index, Err(error)),
                },
            },
    {
        // COM iterators (or at least iTunes iterators) are 1-based.
        // The index is incremented _before_ it is accessed.
        match self.cursor.advance() {
            None => None,
            Some(index) => match self.data.item(index) {
                Ok(found) => Some(found),
                Err(error) => {
                    assert(self.data.item_answer(index, Err(error)));
                    None
                },
            },
        }
    }

    /// The size that the collection had when the walk began.
    pub fn len(&self) -> (len: usize)
        ensures
            len == self.cursor().count,
    {
        self.cursor.len()
    }

    /// The next item from the back, or `None` if there is no index left to ask for or
    /// the collection has no item there any more.
    pub fn next_back(&mut self) -> (item: Option<Items>)
        ensures
            final(self).data() == old(self).data(),
            final(self).cursor() == old(self).cursor().retreated(),
            match old(self).cursor().backward_index() {
                None => item.is_none(),
                Some(index) => match item {
                    Some(found) => old(self).data().item_answer(index, Ok(found)),
                    None => exists|error: Error| #[trigger]
                        old(self).data().item_answer(index, Err(error)),
                },
            },
    {
        match self.cursor.retreat() {
            None => None,
            Some(index) => match self.data.item(index) {
                Ok(found) => Some(found),
                Err(error) => {
                    assert(self.data.item_answer(index, Err(error)));
                    None
                },
            },
        }
    }

    /// The index that a walk asks for after `steps` more steps from the front.
    pub open spec fn index_ahead(self, steps: int) -> LONG {
        (self.cursor().front + 1 + steps) as LONG
    }

    /// The index that a walk asks for after `steps` more steps from the back.
    pub open spec fn index_behind(self, steps: int) -> LONG {
        (self.cursor().back - steps) as LONG
    }

    /// Walks on from the front and gathers the items, in the order of the walk, until no
    /// index is left to ask for or the collection has no item at the index asked for.
    ///
    /// Where the collection gives an item at every index, these are all the items that
    /// the walk had left, each once, in rising order of their index.
    pub fn rest(&mut self) -> (items: Vec<Items>)
        ensures
            final(self).data() == old(self).data(),
            final(self).cursor().count == old(self).cursor().count,
            final(self).cursor().back == old(self).cursor().back,
            items@.len() <= old(self).cursor().count - old(self).cursor().front,
            forall|i: int|
                0 <= i < items@.len() ==> old(self).data().item_answer(
                    old(self).index_ahead(i),
                    Ok(#[trigger] items@[i]),
                ),
            items@.len() == old(self).cursor().count - old(self).cursor().front ==> final(self).cursor().front == old(self).cursor().count,
            items@.len() < old(self).cursor().count - old(self).cursor().front ==> {
                &&& final(self).cursor().front == old(self).cursor().front + items@.len() + 1
                &&& exists|error: Error| #[trigger]
                    old(self).data().item_answer(old(self).index_ahead(items@.len() as int), Err(error))
            },
    {
        proof {
            use_type_invariant(&self.cursor);
        }
        let mut items: Vec<Items> = Vec::new();
        let mut going: bool = true;
        while going
            invariant
                self.data() == old(self).data(),
                self.cursor().wf(),
                self.cursor().count == old(self).cursor().count,
                self.cursor().back == old(self).cursor().back,
                old(self).cursor().front <= self.cursor().front,
                forall|i: int|
                    0 <= i < items@.len() ==> old(self).data().item_answer(
                        old(self).index_ahead(i),
                        Ok(#[trigger] items@[i]),
                    ),
                going ==> self.cursor().front == old(self).cursor().front + items@.len(),
                !going ==> {
                    ||| {
                        &&& items@.len() == old(self).cursor().count - old(self).cursor().front
                        &&& self.cursor().front == old(self).cursor().count
                    }
                    ||| {
                        &&& items@.len() < old(self).cursor().count - old(self).cursor().front
                        &&& self.cursor().front == old(self).cursor().front + items@.len() + 1
                        &&& exists|error: Error| #[trigger]
                            old(self).data().item_answer(
                                old(self).index_ahead(items@.len() as int),
                                Err(error),
                            )
                    }
                },
            decreases self.cursor().count - self.cursor().front + (if going { 1int } else { 0int }),
        {
            let ghost gathered = items@;
            match self.cursor.advance() {
                None => {
                    going = false;
                },
                Some(index) => match self.data.item(index) {
                    Ok(found) => {
                        items.push(found);
                        assert(index == old(self).index_ahead(gathered.len() as int));
                        assert forall|i: int| 0 <= i < items@.len() implies old(self).data().item_answer(old(self).index_ahead(i), Ok(#[trigger] items@[i])) by {
                            if i < gathered.len() {
                                assert(items@[i] == gathered[i]);
                            }
                        }
                    },
                    Err(error) => {
                        assert(index == old(self).index_ahead(items@.len() as int));
                        assert(old(self).data().item_answer(index, Err(error)));
                        going = false;
                    },
                },
            }
        }
        items
    }

    /// Walks on from the back and gathers the items, in the order of the walk, until no
    /// index is left to ask for or the collection has no item at the index asked for.
    ///
    /// Where the collection gives an item at every index, these are all the items that
    /// the walk had left, each once, in falling order of their index.
    pub fn rest_back(&mut self) -> (items: Vec<Items>)
        ensures
            final(self).data() == old(self).data(),
            final(self).cursor().count == old(self).cursor().count,
            final(self).cursor().front == old(self).cursor().front,
            items@.len() <= old(self).cursor().back,
            forall|i: int|
                0 <= i < items@.len() ==> old(self).data().item_answer(
                    old(self).index_behind(i),
                    Ok(#[trigger] items@[i]),
                ),
            items@.len() == old(self).cursor().back ==> final(self).cursor().back == 0,
            items@.len() < old(self).cursor().back ==> {
                &&& final(self).cursor().back == old(self).cursor().back - items@.len() - 1
                &&& exists|error: Error| #[trigger]
                    old(self).data().item_answer(old(self).index_behind(items@.len() as int), Err(error))
            },
    {
        proof {
            use_type_invariant(&self.cursor);
        }
        let mut items: Vec<Items> = Vec::new();
        let mut going: bool = true;
        while going
            invariant
                self.data() == old(self).data(),
                self.cursor().wf(),
                self.cursor().count == old(self).cursor().count,
                self.cursor().front == old(self).cursor().front,
                self.cursor().back <= old(self).cursor().back,
                forall|i: int|
                    0 <= i < items@.len() ==> old(self).data().item_answer(
                        old(self).index_behind(i),
                        Ok(#[trigger] items@[i]),
                    ),
                going ==> self.cursor().back == old(self).cursor().back - items@.len(),
                !going ==> {
                    ||| {
                        &&& items@.len() == old(self).cursor().back
                        &&& self.cursor().back == 0
                    }
                    ||| {
                        &&& items@.len() < old(self).cursor().back
                        &&& self.cursor().back == old(self).cursor().back - items@.len() - 1
                        &&& exists|error: Error| #[trigger]
                            old(self).data().item_answer(
                                old(self).index_behind(items@.len() as int),
                                Err(error),
                            )
                    }
                },
            decreases self.cursor().back + (if going { 1int } else { 0int }),
        {
            let ghost gathered = items@;
            match self.cursor.retreat() {
                None => {
                    going = false;
                },
                Some(index) => match self.data.item(index) {
                    Ok(found) => {
                        items.push(found);
                        assert(index == old(self).index_behind(gathered.len() as int));
                        assert forall|i: int| 0 <= i < items@.len() implies old(self).data().item_answer(old(self).index_behind(i), Ok(#[trigger] items@[i])) by {
                            if i < gathered.len() {
                                assert(items@[i] == gathered[i]);
                            }
                        }
                    },
                    Err(error) => {
                        assert(index == old(self).index_behind(items@.len() as int));
                        assert(old(self).data().item_answer(index, Err(error)));
                        going = false;
                    },
                },
            }
        }
        items
    }
}

} // verus!

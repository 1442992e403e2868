//! Statically typed arrays that a script sees as sequence classes.
//!
//! A script addresses elements with signed indices and walks an array with a
//! stateless cursor: it hands back the previous cursor and receives the next
//! one, or the notice that the walk is done.

use vstd::prelude::*;
use crate::text::{decimal, push_decimal, push_signed, push_text, signed_decimal};

verus! {

/// Name of the script module that declares the array classes.
pub const COLLECTIONS_MODULE: &'static str = "gers.collections";

/// An index that does not address an element, with the array's size at the
/// time of the access.
#[derive(Debug, Clone, Copy, PartialEq, Eq, Structural)]
pub struct OutOfBounds {
    pub index: i32,
    pub size: usize,
}

impl OutOfBounds {
    pub open spec fn text(self) -> Seq<char> {
        "Index out of bounds. Index "@ + signed_decimal(self.index as int) + ", array size is "@
            + decimal(self.size as nat) + "."@
    }

    /// The message shown to the script.
    pub fn to_string(&self) -> (s: String)
        ensures
            s@ == self.text(),
    {
        let mut s = String::new();
        push_text(&mut s, "Index out of bounds. Index ");
        push_signed(&mut s, self.index as i64);
        push_text(&mut s, ", array size is ");
        push_decimal(&mut s, self.size as u64);
        push_text(&mut s, ".");
        assert(s@ =~= self.text());
        s
    }
}

/// One answer of the iterator protocol.
#[derive(Debug, Clone, Copy, PartialEq, Eq, Structural)]
pub enum ArrayIterator {
    /// The cursor of the next element.
    Index(i32),
    /// No element is left.
    Done,
}

/// The zero-based offset that a script index stands for in an array of `len`
/// elements. A negative index refers back from the length: it is subtracted
/// from it.
pub open spec fn offset_of(index: int, len: int) -> int {
    if index >= 0 {
        index
    } else {
        len - index
    }
}

/// Whether a script index lies in the range that an array of `len` elements
/// admits.
pub open spec fn in_bounds(index: int, len: int) -> bool {
    -len <= index < len
}

/// The cursor that follows `previous` in an array of `len` elements; `None`
/// stands for the start of a walk on the way in, and for its end on the way
/// out.
pub open spec fn next_cursor(previous: Option<int>, len: int) -> Option<int> {
    match previous {
        None => if len > 0 {
            Some(0)
        } else {
            None
        },
        Some(i) => if i < len - 1 {
            Some(i + 1)
        } else {
            None
        },
    }
}

/// The answer of the iterator protocol to the cursor `previous` for an
/// array of `len` elements: the next cursor, or the end of the walk. A
/// next cursor that the cursor type cannot hold ends the walk.
pub open spec fn answer(previous: Option<i32>, len: int) -> ArrayIterator {
    match next_cursor(
        match previous {
            Some(i) => Some(i as int),
            None => None,
        },
        len,
    ) {
        Some(n) => if n <= i32::MAX {
            ArrayIterator::Index(n as i32)
        } else {
            ArrayIterator::Done
        },
        None => ArrayIterator::Done,
    }
}

/// The answer to the call number `steps` of a walk, counted from one: the
/// first call hands over no cursor, each later call the cursor that the
/// call before it answered with. Once the walk is done it stays done.
pub open spec fn walk(steps: nat, len: int) -> ArrayIterator
    decreases steps,
{
    if steps <= 1 {
        answer(None, len)
    } else {
        match walk((steps - 1) as nat, len) {
            ArrayIterator::Index(k) => answer(Some(k), len),
            ArrayIterator::Done => ArrayIterator::Done,
        }
    }
}

/// The text of the script class declaration for an array class of the given
/// name. The methods listed here are the ones the native class registers.
pub open spec fn class_stub(name: Seq<char>) -> Seq<char> {
    "foreign class "@ + name
        + " is Sequence {\n  construct new() {}\n\n  foreign get(index)\n  foreign add(value)\n  foreign insert(index, value)\n  foreign removeAt(index)\n  foreign clear()\n  foreign iterate(iterator)\n  foreign iteratorValue(iterator)\n}\n"@
}

/// A growable array of one element type.
#[derive(Debug)]
pub struct ScriptArray<T: Copy> {
    items: Vec<T>,
}

pub type U8Array = ScriptArray<u8>;

pub type U16Array = ScriptArray<u16>;

pub type U32Array = ScriptArray<u32>;

pub type I8Array = ScriptArray<i8>;

pub type I16Array = ScriptArray<i16>;

pub type I32Array = ScriptArray<i32>;

impl<T: Copy> View for ScriptArray<T> {
    type V = Seq<T>;

    closed spec fn view(&self) -> Seq<T> {
        self.items@
    }
}

impl<T: Copy> ScriptArray<T> {
    /// What an indexed read gives: the element at the index's offset, or the
    /// error that carries the index and the size.
    pub open spec fn lookup(self, index: i32) -> Result<T, OutOfBounds> {
        if offset_of(index as int, self@.len() as int) < self@.len() {
            Ok(self@[offset_of(index as int, self@.len() as int)])
        } else {
            Err(OutOfBounds { index, size: self@.len() as usize })
        }
    }

    /// Creates an empty array.
    pub fn new() -> (array: Self)
        ensures
            array@ == Seq::<T>::empty(),
    {
        Self { items: Vec::new() }
    }

    /// Wraps a vector without copying it.
    pub fn from_vec(items: Vec<T>) -> (array: Self)
        ensures
            array@ == items@,
    {
        Self { items }
    }

    /// Unwraps the vector.
    pub fn into_vec(self) -> (items: Vec<T>)
        ensures
            items@ == self@,
    {
        self.items
    }

    /// The number of elements.
    pub fn len(&self) -> (n: usize)
        ensures
            n == self@.len(),
    {
        self.items.len()
    }

    /// Checks whether the given index is in range.
    pub fn in_bounds(&self, index: i32) -> (r: bool)
        ensures
            r == in_bounds(index as int, self@.len() as int),
    {
        if index >= 0 {
            (index as usize) < self.items.len()
        } else if index == i32::MIN {
            2147483648usize <= self.items.len()
        } else {
            ((-index) as usize) <= self.items.len()
        }
    }

    /// Retrieve the element at the given index.
    pub fn get(&self, index: i32) -> (r: Result<T, OutOfBounds>)
        ensures
            r == self.lookup(index),
    {
        if index >= 0 && (index as usize) < self.items.len() {
            Ok(self.items[index as usize])
        } else {
            Err(OutOfBounds { index, size: self.items.len() })
        }
    }

    /// Adds the given element to the end of the array.
    pub fn add(&mut self, value: T)
        ensures
            final(self)@ == old(self)@.push(value),
    {
        self.items.push(value);
    }

    /// Inserts the given element at the index position. The offset of the
    /// index may be the length, which appends.
    pub fn insert(&mut self, index: i32, value: T)
        requires
            offset_of(index as int, old(self)@.len() as int) <= old(self)@.len(),
        ensures
            final(self)@ == old(self)@.insert(offset_of(index as int, old(self)@.len() as int), value),
    {
        self.items.insert(index as usize, value);
    }

    /// Removes the element at the given index and returns it. An index out
    /// of range, or one whose offset addresses no element, leaves the array
    /// as it is and is reported.
    pub fn remove_at(&mut self, index: i32) -> (r: Result<T, OutOfBounds>)
        ensures
            match r {
                Ok(value) => {
                    &&& in_bounds(index as int, old(self)@.len() as int)
                    &&& offset_of(index as int, old(self)@.len() as int) < old(self)@.len()
                    &&& value == old(self)@[offset_of(index as int, old(self)@.len() as int)]
                    &&& final(self)@ == old(self)@.remove(
                        offset_of(index as int, old(self)@.len() as int),
                    )
                },
                Err(e) => {
                    &&& !(in_bounds(index as int, old(self)@.len() as int) && offset_of(
                        index as int,
                        old(self)@.len() as int,
                    ) < old(self)@.len())
                    &&& e == OutOfBounds { index, size: old(self)@.len() as usize }
                    &&& final(self)@ == old(self)@
                },
            },
    {
        if index >= 0 && (index as usize) < self.items.len() {
            Ok(self.items.remove(index as usize))
        } else {
            Err(OutOfBounds { index, size: self.items.len() })
        }
    }

    /// Clears the contents of the array.
    pub fn clear(&mut self)
        ensures
            final(self)@ == Seq::<T>::empty(),
    {
        self.items.clear();
    }

    /// One step of the iterator protocol: the cursor after `index`, where no
    /// index asks for the first cursor. A cursor that the index type cannot
    /// hold ends the walk. The array is only read: the caller keeps the
    /// cursor and hands it back.
    pub fn iterate(&self, index: Option<i32>) -> (r: ArrayIterator)
        ensures
            r == answer(index, self@.len() as int),
    {
        match index {
            None => {
                if self.items.len() > 0 {
                    ArrayIterator::Index(0)
                } else {
                    ArrayIterator::Done
                }
            },
            Some(i) => {
                if i < i32::MAX && (i < -1 || ((i + 1) as usize) < self.items.len()) {
                    ArrayIterator::Index(i + 1)
                } else {
                    ArrayIterator::Done
                }
            },
        }
    }

    /// The element under a cursor.
    pub fn iterator_value(&self, index: i32) -> (r: Result<T, OutOfBounds>)
        ensures
            r == self.lookup(index),
    {
        self.get(index)
    }

    /// Borrows the contents of the array as an immutable slice.
    pub fn as_slice(&self) -> (s: &[T])
        ensures
            s@ == self@,
    {
        self.items.as_slice()
    }

    /// Borrows the contents of the array as an mutable slice.
    pub fn as_slice_mut(&mut self) -> (s: &mut [T])
        ensures
            s@ == old(self)@,
            final(s)@ == final(self)@,
    {
        self.items.as_mut_slice()
    }

    /// Builds the script declaration of an array class of the given name.
    pub fn script(class_name: &str) -> (s: String)
        ensures
            s@ == class_stub(class_name@),
    {
        let mut s = String::new();
        push_text(&mut s, "foreign class ");
        push_text(&mut s, class_name);
        push_text(
            &mut s,
            " is Sequence {\n  construct new() {}\n\n  foreign get(index)\n  foreign add(value)\n  foreign insert(index, value)\n  foreign removeAt(index)\n  foreign clear()\n  foreign iterate(iterator)\n  foreign iteratorValue(iterator)\n}\n",
        );
        assert(s@ =~= class_stub(class_name@));
        s
    }
}

/// An index at or above zero and below the length reads the element at that
/// position.
pub proof fn lemma_get_in_range<T: Copy>(array: ScriptArray<T>, index: i32)
    requires
        0 <= index < array@.len(),
    ensures
        array.lookup(index) == Ok::<T, OutOfBounds>(array@[index as int]),
{
}

/// An index below minus the length, or at or above the length, reads
/// nothing: the error carries the index and the size.
pub proof fn lemma_get_out_of_range<T: Copy>(array: ScriptArray<T>, index: i32)
    requires
        !in_bounds(index as int, array@.len() as int),
    ensures
        array.lookup(index) == Err::<T, OutOfBounds>(
            OutOfBounds { index, size: array@.len() as usize },
        ),
{
}

/// A negative index never reads an element: its offset lies past the end.
pub proof fn lemma_get_negative<T: Copy>(array: ScriptArray<T>, index: i32)
    requires
        index < 0,
    ensures
        array.lookup(index) == Err::<T, OutOfBounds>(
            OutOfBounds { index, size: array@.len() as usize },
        ),
{
}

/// After one element was added to an empty array, index zero reads it back.
pub proof fn lemma_add_then_get_first<T: Copy>(before: ScriptArray<T>, after: ScriptArray<T>, value: T)
    requires
        before@.len() == 0,
        after@ == before@.push(value),
    ensures
        after.lookup(0) == Ok::<T, OutOfBounds>(value),
{
}

/// The largest number of elements that a walk can visit: the number of
/// cursors at or above zero.
pub open spec fn walkable() -> int {
    i32::MAX + 1
}

/// A walk over an array of at most `walkable()` elements answers the calls
/// one to the length with the cursors zero to the length minus one, in
/// order and each once, and every later call with the end of the walk.
/// Each of these cursors reads the element at its position.
pub proof fn lemma_walk_visits_all<T: Copy>(array: ScriptArray<T>, steps: nat)
    requires
        array@.len() <= walkable(),
        1 <= steps,
    ensures
        steps <= array@.len() ==> walk(steps, array@.len() as int) == ArrayIterator::Index(
            (steps - 1) as i32,
        ) && array.lookup((steps - 1) as i32) == Ok::<T, OutOfBounds>(array@[steps - 1]),
        steps > array@.len() ==> walk(steps, array@.len() as int) == ArrayIterator::Done,
    decreases steps,
{
    if steps > 1 {
        lemma_walk_visits_all(array, (steps - 1) as nat);
    }
}

/// The class names of the arrays that the engine registers, in the order in
/// which their declarations are interpreted.
pub open spec fn builtin_class_names() -> Seq<Seq<char>> {
    seq![
        "U8Array"@,
        "U16Array"@,
        "U32Array"@,
        "I8Array"@,
        "I16Array"@,
        "I32Array"@,
        "F32Array"@,
        "F64Array"@,
    ]
}

/// The declarations that registering the collections interprets, in order,
/// each for the module `COLLECTIONS_MODULE`.
pub fn register_collections() -> (scripts: Vec<String>)
    ensures
        scripts@.len() == builtin_class_names().len(),
        forall|i: int|
            0 <= i < scripts@.len() ==> (#[trigger] scripts@[i])@ == class_stub(
                builtin_class_names()[i],
            ),
{
    let mut scripts: Vec<String> = Vec::new();
    scripts.push(U8Array::script("U8Array"));
    scripts.push(U8Array::script("U16Array"));
    scripts.push(U8Array::script("U32Array"));
    scripts.push(U8Array::script("I8Array"));
    scripts.push(U8Array::script("I16Array"));
    scripts.push(U8Array::script("I32Array"));
    scripts.push(U8Array::script("F32Array"));
    scripts.push(U8Array::script("F64Array"));
    scripts
}

} // verus!

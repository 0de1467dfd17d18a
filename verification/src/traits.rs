//! Traits for enums whose values can be listed, cycled through and named.

use vstd::prelude::*;
use vstd::std_specs::cmp::PartialEqSpec;

verus! {

/// Trait for simple enums to provide all values.
///
/// An implementation lists every value, and `index_of` gives the place of a
/// value in that list.
pub trait Variants: Sized + 'static {
    /// All values of the enum, in order.
    spec fn spec_variants() -> Seq<Self>;

    /// The place of a value among all values.
    spec fn spec_index_of(&self) -> int;

    /// All values of the enum.
    fn variants() -> (all: &'static [Self])
        ensures
            all@ == Self::spec_variants(),
    ;

    /// Get index of variant in variant array.
    fn index_of(&self) -> (index: usize)
        ensures
            index == self.spec_index_of(),
            0 <= self.spec_index_of() < Self::spec_variants().len(),
            Self::spec_variants()[self.spec_index_of()] == *self,
    ;

    /// Get a reference with any lifetime to the listed value that matches
    /// another value.
    fn variant_lifetime_cast<'a>(value: &Self) -> (found: &'a Self)
        ensures
            *found == *value,
    {
        let all = Self::variants();
        let index = value.index_of();
        &all[index]
    }
}

/// The element that follows the first occurrence of `value` in `list`; the
/// first element where `value` does not occur or occurs only at the end.
pub open spec fn next_in<T: PartialEq>(list: Seq<T>, value: T) -> T {
    let at = first_match(list, value, 0, list.len() - 1);
    if at < list.len() - 1 {
        list[at + 1]
    } else {
        list[0]
    }
}

/// The element before the first occurrence of `value` in `list` that is not
/// at the front; the last element where there is no such occurrence.
pub open spec fn prev_in<T: PartialEq>(list: Seq<T>, value: T) -> T {
    let at = first_match(list, value, 1, list.len() as int);
    if at < list.len() {
        list[at - 1]
    } else {
        list[list.len() - 1]
    }
}

/// The first index from `from` up to, but not including, `limit` whose
/// element equals `value`; `limit` where there is none.
pub open spec fn first_match<T: PartialEq>(list: Seq<T>, value: T, from: int, limit: int) -> int
    decreases limit - from,
{
    if from >= limit {
        limit
    } else if list[from].eq_spec(&value) {
        from
    } else {
        first_match(list, value, from + 1, limit)
    }
}

/// The element of a list that follows the first occurrence of a value; see
/// [`next_in`]. The list must not be empty.
pub fn next_of<'a, T: PartialEq>(list: &'a [T], value: &T) -> (next: &'a T)
    requires
        list@.len() > 0,
    ensures
        T::obeys_eq_spec() ==> *next == next_in(list@, *value),
        exists|i: int| 0 <= i < list@.len() && *next == list@[i],
{
    let len = list.len();
    let mut i: usize = 0;
    while i + 1 < len
        invariant
            len == list@.len(),
            len > 0,
            i + 1 <= len,
            T::obeys_eq_spec() ==> first_match(list@, *value, 0, list@.len() - 1) == first_match(
                list@,
                *value,
                i as int,
                list@.len() - 1,
            ),
        decreases len - i,
    {
        if list[i] == *value {
            assert(list@[i + 1] == list@[i + 1]);
            return &list[i + 1];
        }
        i += 1;
    }
    assert(list@[0] == list@[0]);
    &list[0]
}

/// The element of a list before the first occurrence of a value that is
/// not at the front; see [`prev_in`]. The list must not be empty.
pub fn prev_of<'a, T: PartialEq>(list: &'a [T], value: &T) -> (prev: &'a T)
    requires
        list@.len() > 0,
    ensures
        T::obeys_eq_spec() ==> *prev == prev_in(list@, *value),
        exists|i: int| 0 <= i < list@.len() && *prev == list@[i],
{
    let len = list.len();
    let mut i: usize = 1;
    while i < len
        invariant
            len == list@.len(),
            len > 0,
            1 <= i <= len,
            T::obeys_eq_spec() ==> first_match(list@, *value, 1, list@.len() as int)
                == first_match(list@, *value, i as int, list@.len() as int),
        decreases len - i,
    {
        if list[i] == *value {
            assert(list@[i - 1] == list@[i - 1]);
            return &list[i - 1];
        }
        i += 1;
    }
    assert(list@[len - 1] == list@[len - 1]);
    &list[len - 1]
}

/// Trait to provide a set of variants.
pub trait PartialVariants: Sized + 'static {
    /// The variants that are provided, in order.
    spec fn spec_partial_variants() -> Seq<Self>;

    /// Whether stepping is left to the provided methods, which search the
    /// variants with `==`. An implementation that steps in its own way says
    /// `false` here and states what its methods return.
    spec fn steps_by_search() -> bool;

    /// Provide the variants.
    fn partial_variants() -> (list: &'static [Self])
        ensures
            list@ == Self::spec_partial_variants(),
    ;

    /// Get the next variant in partial variants.
    ///
    /// If self is not part of partial_variants, or is the last of them, the
    /// first item is returned. There has to be at least one variant.
    fn partial_cycle_next<'a>(&self) -> (next: &'a Self) where Self: PartialEq
        requires
            Self::spec_partial_variants().len() > 0,
        ensures
            Self::steps_by_search() && Self::obeys_eq_spec() ==> *next == next_in(
                Self::spec_partial_variants(),
                *self,
            ),
            exists|i: int|
                0 <= i < Self::spec_partial_variants().len() && *next
                    == Self::spec_partial_variants()[i],
    {
        next_of(Self::partial_variants(), self)
    }

    /// Get the prev variant in partial variants.
    ///
    /// If self is not part of partial_variants, or is the first of them, the
    /// last item is returned. There has to be at least one variant.
    fn partial_cycle_prev<'a>(&self) -> (prev: &'a Self) where Self: PartialEq
        requires
            Self::spec_partial_variants().len() > 0,
        ensures
            Self::steps_by_search() && Self::obeys_eq_spec() ==> *prev == prev_in(
                Self::spec_partial_variants(),
                *self,
            ),
            exists|i: int|
                0 <= i < Self::spec_partial_variants().len() && *prev
                    == Self::spec_partial_variants()[i],
    {
        prev_of(Self::partial_variants(), self)
    }
}

/// An enum that lists all its values and knows its cycle provides all of
/// them, and steps by its cycle: the neighbour of a value is the one at the
/// neighbouring place of the list, whatever `==` says.
impl<T: Variants + Cycle> PartialVariants for T {
    open spec fn spec_partial_variants() -> Seq<Self> {
        T::spec_variants()
    }

    open spec fn steps_by_search() -> bool {
        false
    }

    #[inline]
    fn partial_variants() -> (list: &'static [Self]) {
        T::variants()
    }

    #[inline]
    fn partial_cycle_next<'a>(&self) -> (next: &'a Self) where Self: PartialEq
        ensures
            *next == T::spec_variants()[place_after(
                self.spec_index_of(),
                T::spec_variants().len() as int,
            )],
    {
        let stepped = Cycle::cycle_next(self);
        let ghost place = place_after(self.spec_index_of(), T::spec_variants().len() as int);
        let next = T::variant_lifetime_cast(&stepped);
        assert(*next == T::spec_variants()[place]);
        next
    }

    #[inline]
    fn partial_cycle_prev<'a>(&self) -> (prev: &'a Self) where Self: PartialEq
        ensures
            *prev == T::spec_variants()[place_before(
                self.spec_index_of(),
                T::spec_variants().len() as int,
            )],
    {
        let stepped = Cycle::cycle_prev(self);
        let ghost place = place_before(self.spec_index_of(), T::spec_variants().len() as int);
        let prev = T::variant_lifetime_cast(&stepped);
        assert(*prev == T::spec_variants()[place]);
        prev
    }
}

/// The place after `index` in a cycle of `len` places.
pub open spec fn place_after(index: int, len: int) -> int {
    if index + 1 < len {
        index + 1
    } else {
        0
    }
}

/// The place before `index` in a cycle of `len` places.
pub open spec fn place_before(index: int, len: int) -> int {
    if index > 0 {
        index - 1
    } else {
        len - 1
    }
}

/// Trait for simple enums to cycle the value.
pub trait Cycle: Variants {
    /// Get the next variant. For the last variant will return the first
    /// variant.
    fn cycle_next(&self) -> (next: Self)
        ensures
            0 <= self.spec_index_of() < Self::spec_variants().len(),
            next == Self::spec_variants()[place_after(
                self.spec_index_of(),
                Self::spec_variants().len() as int,
            )],
    ;

    /// Get the previous variant. For the first variant will return the last
    /// variant.
    fn cycle_prev(&self) -> (prev: Self)
        ensures
            0 <= self.spec_index_of() < Self::spec_variants().len(),
            prev == Self::spec_variants()[place_before(
                self.spec_index_of(),
                Self::spec_variants().len() as int,
            )],
    ;
}

/// Trait for getting the name of an enum variant.
pub trait AsStr {
    /// The name of the current variant.
    spec fn spec_as_str(&self) -> Seq<char>;

    /// Get the name of the current variant.
    fn as_str<'a>(&self) -> (name: &'a str)
        ensures
            name@ == self.spec_as_str(),
    ;
}

impl<T: AsStr> AsStr for &T {
    open spec fn spec_as_str(&self) -> Seq<char> {
        (**self).spec_as_str()
    }

    #[inline]
    fn as_str<'a>(&self) -> (name: &'a str) {
        T::as_str(self)
    }
}

/// Provide a proxy struct with custom non-trait methods.
pub trait Proxy {
    /// Proxy type.
    type Proxy;

    /// Return proxy object.
    fn proxy(&self) -> &Self::Proxy;
}

/// Error returned when a name is looked up that no variant of an enum has.
#[derive(Debug, Clone, Copy, PartialEq, Eq, PartialOrd, Ord, Hash, Default, Structural)]
pub struct UnknownVariant;

impl UnknownVariant {
    /// What the error says.
    pub fn message(&self) -> (text: &'static str)
        ensures
            text@ == "no variant with given name available"@,
    {
        "no variant with given name available"
    }
}

/// Convert a struct to its fields.
pub trait IntoFields: Sized {
    /// Representation of any non-skipped field.
    type Field;

    /// The fields of a value, in order.
    spec fn spec_into_fields(self) -> Seq<Self::Field>;

    /// Convert self into a collection of fields.
    fn into_fields(self) -> (fields: Vec<Self::Field>)
        ensures
            fields@ == self.spec_into_fields(),
    ;
}

/// Apply a field as a delta updating the current value.
pub trait FieldDelta: Sized {
    /// Field delta which may be applied.
    type FieldDelta;

    /// The value after a field was applied to it.
    spec fn spec_delta(self, delta: Self::FieldDelta) -> Self;

    /// Apply a single field as a change to self.
    fn delta(&mut self, delta: Self::FieldDelta)
        ensures
            *final(self) == (*old(self)).spec_delta(delta),
    ;
}

/// Trait for structs providing an indexing enum to index fields.
pub trait FieldsIdx {
    /// Type to index fields with.
    type FieldIdx;

    /// Type for field reference.
    type FieldRef<'this> where Self: 'this;

    /// Get a field by index.
    fn get(&self, idx: Self::FieldIdx) -> Self::FieldRef<'_>;
}

/// Trait for structs providing an indexing enum to index fields mutably.
pub trait FieldsIdxMut: FieldsIdx {
    /// Type for field reference.
    type FieldMut<'this> where Self: 'this;

    /// Get a mut field by index.
    fn get_mut(&mut self, idx: Self::FieldIdx) -> Self::FieldMut<'_>;
}

/// Collection trait for all struct field access traits.
pub trait Fields: IntoFields<Field = <Self as Fields>::Field> + FieldDelta<
    FieldDelta = <Self as Fields>::Field,
> where
    for <'f>Self: 'f + FieldsIdx<
        FieldIdx = <Self as Fields>::FieldIdx,
        FieldRef<'f> = <Self as Fields>::FieldRef<'f>,
    > + FieldsIdxMut<FieldMut<'f> = <Self as Fields>::FieldMut<'f>>,
{
    /// An enum which may be any field of struct.
    type Field;

    /// Type used when indexing fields.
    type FieldIdx: AsStr + Variants + Cycle + Copy + Eq + Ord + core::hash::Hash;

    /// A reference to a field.
    type FieldRef<'f>;

    /// A mutable reference to a field.
    type FieldMut<'f>;

    /// Container of references to fields.
    type FieldsRef<'f> where Self: 'f;

    /// Container of mutable references to fields.
    type FieldsMut<'f> where Self: 'f;

    /// Get references to fields.
    fn fields(&self) -> Self::FieldsRef<'_>;

    /// Get mutable references to fields.
    fn fields_mut(&mut self) -> Self::FieldsMut<'_>;
}

/// Cycling forward and then back, or back and then forward, comes home to
/// the place it began at; and in a cycle of one place every step stays.
pub proof fn lemma_cycle_round_trip(index: int, len: int)
    requires
        0 <= index < len,
    ensures
        0 <= place_after(index, len) < len,
        0 <= place_before(index, len) < len,
        place_before(place_after(index, len), len) == index,
        place_after(place_before(index, len), len) == index,
{
}

} // verus!

//! Menu identifiers and their resolution to 32-bit numeric identifiers.
//!
//! An application names its menu items by values of a type of its own choice. Native
//! menus address items by small integers, so each identifier is hashed, and the low
//! 32 bits of the digest are its numeric identifier. Two identifiers may resolve to
//! one number: nothing here detects that.

use std::collections::hash_map::DefaultHasher;
use std::hash::Hasher;
use vstd::prelude::*;
use vstd::std_specs::hash::DefaultHasherAdditionalSpecFns;

verus! {

/// What a type must offer to serve as the key of a menu item: an equality, a hash
/// that agrees with it, and copies that stand on their own.
pub trait MenuId: Sized {
    /// The equality of identifiers.
    spec fn same(&self, other: &Self) -> bool;

    /// The byte strings that the identifier feeds to a hasher, one for each write.
    spec fn hashed(&self) -> Seq<Seq<u8>>;

    /// Equal identifiers feed the same bytes to a hasher.
    proof fn lemma_same_hashed(&self, other: &Self)
        requires
            self.same(other),
        ensures
            self.hashed() == other.hashed(),
    ;

    /// Tells whether two identifiers are equal.
    fn is_same(&self, other: &Self) -> (equal: bool)
        ensures
            equal == self.same(other),
    ;

    /// Feeds the identifier to `state`, after what `state` was fed before.
    fn hash_into(&self, state: &mut DefaultHasher)
        ensures
            final(state)@ == old(state)@ + self.hashed(),
    ;

    /// Makes a copy of the identifier: a value of its own that equals it.
    fn duplicate(&self) -> (copy: Self)
        ensures
            self.same(&copy),
    ;
}

/// The low 32 bits of a digest.
pub open spec fn low_bits(digest: u64) -> u32 {
    (digest % 0x1_0000_0000) as u32
}

/// The numeric identifier of `id`: the low 32 bits of the digest of what `id`
/// feeds to a fresh hasher.
pub open spec fn resolved<I: MenuId>(id: I) -> u32 {
    low_bits(DefaultHasher::spec_finish(id.hashed()))
}

/// Resolves `id` to its numeric identifier. Every identifier has one, and
/// identifiers that are not equal may share one.
pub fn resolve<I: MenuId>(id: &I) -> (numeric: u32)
    ensures
        numeric == resolved(*id),
{
    let mut state = DefaultHasher::new();
    id.hash_into(&mut state);
    let digest: u64 = state.finish();
    assert(digest as u32 == digest % 0x1_0000_0000) by (bit_vector);
    #[verifier::truncate]
    (digest as u32)
}

/// Equal identifiers resolve to the same numeric identifier.
pub proof fn lemma_same_resolved<I: MenuId>(a: I, b: I)
    requires
        a.same(&b),
    ensures
        resolved(a) == resolved(b),
{
    a.lemma_same_hashed(&b);
}

impl MenuId for u8 {
    open spec fn same(&self, other: &Self) -> bool {
        *self == *other
    }

    /// The one byte.
    open spec fn hashed(&self) -> Seq<Seq<u8>> {
        seq![seq![*self]]
    }

    proof fn lemma_same_hashed(&self, other: &Self) {
    }

    fn is_same(&self, other: &Self) -> (equal: bool) {
        *self == *other
    }

    fn hash_into(&self, state: &mut DefaultHasher) {
        let bytes: [u8; 1] = [*self];
        assert(bytes@ == seq![*self]);
        state.write(bytes.as_slice());
    }

    fn duplicate(&self) -> (copy: Self) {
        *self
    }
}

impl MenuId for u16 {
    open spec fn same(&self, other: &Self) -> bool {
        *self == *other
    }

    /// The two bytes, the low one first.
    open spec fn hashed(&self) -> Seq<Seq<u8>> {
        seq![vstd::bytes::spec_u16_to_le_bytes(*self)]
    }

    proof fn lemma_same_hashed(&self, other: &Self) {
    }

    fn is_same(&self, other: &Self) -> (equal: bool) {
        *self == *other
    }

    fn hash_into(&self, state: &mut DefaultHasher) {
        let bytes = vstd::bytes::u16_to_le_bytes(*self);
        state.write(bytes.as_slice());
    }

    fn duplicate(&self) -> (copy: Self) {
        *self
    }
}

impl MenuId for u32 {
    open spec fn same(&self, other: &Self) -> bool {
        *self == *other
    }

    /// The four bytes, the lowest first.
    open spec fn hashed(&self) -> Seq<Seq<u8>> {
        seq![vstd::bytes::spec_u32_to_le_bytes(*self)]
    }

    proof fn lemma_same_hashed(&self, other: &Self) {
    }

    fn is_same(&self, other: &Self) -> (equal: bool) {
        *self == *other
    }

    fn hash_into(&self, state: &mut DefaultHasher) {
        let bytes = vstd::bytes::u32_to_le_bytes(*self);
        state.write(bytes.as_slice());
    }

    fn duplicate(&self) -> (copy: Self) {
        *self
    }
}

impl MenuId for u64 {
    open spec fn same(&self, other: &Self) -> bool {
        *self == *other
    }

    /// The eight bytes, the lowest first.
    open spec fn hashed(&self) -> Seq<Seq<u8>> {
        seq![vstd::bytes::spec_u64_to_le_bytes(*self)]
    }

    proof fn lemma_same_hashed(&self, other: &Self) {
    }

    fn is_same(&self, other: &Self) -> (equal: bool) {
        *self == *other
    }

    fn hash_into(&self, state: &mut DefaultHasher) {
        let bytes = vstd::bytes::u64_to_le_bytes(*self);
        state.write(bytes.as_slice());
    }

    fn duplicate(&self) -> (copy: Self) {
        *self
    }
}

impl MenuId for String {
    /// Strings are equal when they hold the same characters.
    open spec fn same(&self, other: &Self) -> bool {
        self@ == other@
    }

    /// The characters in UTF-8, then one byte that no UTF-8 text holds.
    open spec fn hashed(&self) -> Seq<Seq<u8>> {
        seq![vstd::utf8::encode_utf8(self@), seq![0xffu8]]
    }

    proof fn lemma_same_hashed(&self, other: &Self) {
    }

    fn is_same(&self, other: &Self) -> (equal: bool) {
        *self == *other
    }

    fn hash_into(&self, state: &mut DefaultHasher) {
        state.write(self.as_str().as_bytes());
        let end: [u8; 1] = [0xff];
        assert(end@ == seq![0xffu8]);
        state.write(end.as_slice());
    }

    fn duplicate(&self) -> (copy: Self) {
        self.clone()
    }
}

} // verus!

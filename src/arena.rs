//! The arena that owns the typed elements: a slot map keyed by generational
//! keys.
use vstd::prelude::*;

use slotmap::{DefaultKey, SlotMap};

use crate::document::Element;

verus! {

/// The slot map that holds the elements of a document. Verus does not take
/// a declaration of `SlotMap` itself (its key parameter is bound by an
/// outside trait), so the slot map sits in this opaque struct.
#[verifier::external_body]
#[derive(Debug)]
pub struct Arena {
    inner: SlotMap<DefaultKey, Element>,
}

#[verifier::external_type_specification]
#[verifier::external_body]
pub struct ExDefaultKey(DefaultKey);


/// What an arena holds: each live key with its element.
pub uninterp spec fn arena_contents(m: Arena) -> Map<DefaultKey, Element>;

/// Relies on `SlotMap::new`: an empty slot map.
#[verifier::external_body]
pub(crate) fn arena_new() -> (r: Arena)
    ensures
        arena_contents(r).dom() == Set::<DefaultKey>::empty(),
{
    Arena { inner: SlotMap::new() }
}

/// Relies on `SlotMap::insert`: the value is stored under a key that held
/// nothing before, and the other entries stay. It panics once the slot map
/// is full, that is, with `u32::MAX - 1` entries.
#[verifier::external_body]
pub(crate) fn arena_insert(
    m: &mut Arena,
    v: Element,
) -> (k: DefaultKey)
    requires
        arena_contents(*old(m)).dom().len() + 1 < u32::MAX,
    ensures
        !arena_contents(*old(m)).contains_key(k),
        arena_contents(*final(m)) == arena_contents(*old(m)).insert(k, v),
{
    m.inner.insert(v)
}

/// Relies on `SlotMap::get`: the value stored under `k`, if `k` is live.
#[verifier::external_body]
pub(crate) fn arena_get(
    m: &Arena,
    k: DefaultKey,
) -> (r: Option<&Element>)
    ensures
        match r {
            Some(e) => arena_contents(*m).contains_key(k) && *e == arena_contents(*m)[k],
            None => !arena_contents(*m).contains_key(k),
        },
{
    m.inner.get(k)
}

} // verus!

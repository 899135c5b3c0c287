//! The layer merge primitive.
//!
//! A configuration layer sets a field or stays silent about it. Merging a
//! layer into an already-resolved value overwrites exactly the fields the
//! layer sets and keeps every other field as it was. The two functions here
//! are the single, generic implementation of that rule; every configuration
//! section reuses them field by field through its [`ApplyLayer`] impl.

use vstd::prelude::*;

verus! {

/// What merging one optional field into a concrete field yields.
pub open spec fn spec_apply_val<T>(cur: T, layer: Option<T>) -> T {
    match layer {
        Some(v) => v,
        None => cur,
    }
}

/// What merging one optional field into an optional field yields: a layer
/// that sets the field replaces it, a silent layer keeps it.
pub open spec fn spec_apply_opt<T>(cur: Option<T>, layer: Option<T>) -> Option<T> {
    match layer {
        Some(v) => Some(v),
        None => cur,
    }
}

/// Overwrite `dst` with the layer's value when the layer sets one; keep
/// `dst` as it is when the layer is silent.
pub fn apply_val<T>(dst: &mut T, layer: Option<T>)
    ensures
        *final(dst) == spec_apply_val(*old(dst), layer),
{
    if let Some(v) = layer {
        *dst = v;
    }
}

/// Like [`apply_val`], for a field that stays optional in the resolved value.
pub fn apply_opt<T>(dst: &mut Option<T>, layer: Option<T>)
    ensures
        *final(dst) == spec_apply_opt(*old(dst), layer),
{
    if let Some(v) = layer {
        *dst = Some(v);
    }
}

/// A resolved configuration section that a partial layer can be merged into.
///
/// `spec_apply` is the mathematical meaning of the merge; `apply_layer`
/// must realize exactly that value.
pub trait ApplyLayer: Sized {
    type Layer;

    /// The value this section has after merging `layer` into `self`.
    spec fn spec_apply(self, layer: Self::Layer) -> Self;

    /// Merge `layer` into `self`, field by field.
    fn apply_layer(&mut self, layer: Self::Layer)
        ensures
            *final(self) == old(self).spec_apply(layer),
    ;
}

/// A field set by the later (workspace-provided) layer resolves to that
/// layer's value, whatever the earlier layer or the default said.
pub proof fn lemma_later_layer_wins<T>(base: T, first: Option<T>, second: Option<T>)
    requires
        second is Some,
    ensures
        spec_apply_val(spec_apply_val(base, first), second) == second.unwrap(),
{
}

/// A field set by neither layer resolves to the built-in default it
/// started from.
pub proof fn lemma_default_survives<T>(base: T, first: Option<T>, second: Option<T>)
    requires
        first is None,
        second is None,
    ensures
        spec_apply_val(spec_apply_val(base, first), second) == base,
{
}

/// A field set only by the earlier layer resolves to that layer's value.
pub proof fn lemma_earlier_layer_applies<T>(base: T, first: Option<T>, second: Option<T>)
    requires
        first is Some,
        second is None,
    ensures
        spec_apply_val(spec_apply_val(base, first), second) == first.unwrap(),
{
}

} // verus!

//! Updates of stored values: each field of an update either brings a new
//! value or leaves the old one.

use poem_ext::patch_value::PatchValue;
use vstd::prelude::*;

verus! {

/// `poem_ext::patch_value::PatchValue`, the field of an update: `Set` with
/// the new value, or `Unchanged`. The type is taken as it is declared, with
/// its two variants.
#[verifier::external_type_specification]
#[verifier::reject_recursive_types(T)]
pub struct ExPatchValue<T>(PatchValue<T>);

/// `PatchValue::get_new`: the new value where the update brings one, else
/// the old value.
pub assume_specification<'a, T>[ PatchValue::<T>::get_new ](
    new: &'a PatchValue<T>,
    old: &'a T,
) -> (r: &'a T)
    ensures
        *r == patched(*new, *old),
;

/// What is written to a stored field.
#[derive(Debug, Clone, Copy, PartialEq, Eq)]
pub enum ActiveValue<T> {
    /// The field gets this value.
    Changed(T),
    /// The field keeps this value.
    Unchanged(T),
}

/// The value that a field has once the update is made.
pub open spec fn patched<T>(new: PatchValue<T>, old: T) -> T {
    match new {
        PatchValue::Set(value) => value,
        PatchValue::Unchanged => old,
    }
}

/// What is written to a field whose update is `new`: the new value where
/// there is one, the old value unchanged where there is none.
pub fn update<T>(old: T, new: Option<T>) -> (r: ActiveValue<T>)
    ensures
        r == (match new {
            Some(value) => ActiveValue::Changed(value),
            None => ActiveValue::Unchanged(old),
        }),
{
    if let Some(new) = new {
        ActiveValue::Changed(new)
    } else {
        ActiveValue::Unchanged(old)
    }
}

} // verus!

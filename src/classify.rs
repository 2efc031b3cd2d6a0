//! Per-value filters applied to raster samples, and their binding to bands.

use vstd::prelude::*;
use crate::value::{same_variant, value_eq, Value};

verus! {

/// A filter over sampled values: `classify` keeps a value (possibly
/// rewritten) or drops it by returning `None`.
pub trait Classifier {
    fn classify(&self, value: Value) -> Option<Value>;

    /// The value this classifier is configured with, for introspection.
    fn value_type(&self) -> &Value;
}

/// Masks one configured "no data" sentinel.
pub struct NoData {
    pub no_data_value: Value,
}

/// What a "no data" mask with `sentinel` makes of `v`: absent exactly when
/// `v` equals the sentinel, `v` unchanged otherwise.
pub open spec fn no_data_mask(sentinel: Value, v: Value) -> Option<Value> {
    if value_eq(sentinel, v) {
        None
    } else {
        Some(v)
    }
}

impl NoData {
    pub fn new(no_data_value: Value) -> (r: Self)
        ensures
            r.no_data_value == no_data_value,
    {
        NoData { no_data_value }
    }
}

impl Classifier for NoData {
    fn classify(&self, other: Value) -> (r: Option<Value>)
        ensures
            r == no_data_mask(self.no_data_value, other),
    {
        if self.no_data_value == other {
            None
        } else {
            Some(other)
        }
    }

    fn value_type(&self) -> (r: &Value)
        ensures
            *r == self.no_data_value,
    {
        &self.no_data_value
    }
}

/// Binds a classifier to the index of the raster band it filters.
pub struct ClassifiedBand<C: Classifier> {
    pub source_band: u8,
    pub classifier: C,
}

/// The sentinel itself is masked; every value that is not equal to it,
/// whatever its variant, passes through unchanged.
pub proof fn lemma_no_data_masks_only_sentinel(sentinel: Value, v: Value)
    ensures
        no_data_mask(sentinel, sentinel) is None,
        !value_eq(sentinel, v) ==> no_data_mask(sentinel, v) == Some(v),
        value_eq(sentinel, v) ==> no_data_mask(sentinel, v) is None,
        !same_variant(sentinel, v) ==> no_data_mask(sentinel, v) == Some(v),
{
}

} // verus!

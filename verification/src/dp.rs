use vstd::prelude::*;

verus! {

/// A timestamped datapoint: the reading `val` taken at time `ts`.
#[derive(Debug, PartialEq)]
pub struct Dp<T> {
    pub ts: usize,
    pub val: T,
}

impl<T> From<(usize, T)> for Dp<T> {
    fn from(val: (usize, T)) -> (r: Self) {
        Dp { ts: val.0, val: val.1 }
    }
}

impl<T> vstd::std_specs::convert::FromSpecImpl<(usize, T)> for Dp<T> {
    open spec fn obeys_from_spec() -> bool {
        true
    }

    open spec fn from_spec(v: (usize, T)) -> Self {
        Dp { ts: v.0, val: v.1 }
    }
}

} // verus!

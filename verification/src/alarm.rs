use vstd::prelude::*;

verus! {

/// The externally visible state of an alarm: quiet (`Okay`) or firing
/// (`Alarm`).
#[derive(Copy, Clone, Debug, PartialEq, Eq, Structural)]
pub enum AlarmState {
    Alarm,
    Okay,
}

/// A stateful alarm: it consumes one sample per evaluation period and
/// reports the state reached after consuming it.
///
/// `inv` is the well-formedness condition an implementation maintains
/// across calls to `feed`; what `feed` returns is left to each
/// implementation's own, stronger contract.
pub trait Alarm<T> {
    spec fn inv(&self) -> bool;

    fn feed(&mut self, val: T) -> (state: AlarmState)
        requires
            old(self).inv(),
        ensures
            final(self).inv(),
    ;
}

} // verus!

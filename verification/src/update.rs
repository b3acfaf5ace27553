use vstd::prelude::*;

verus! {

/// Why an update loop stopped early: the stop signal or the effect failed.
pub enum UpdateErr<EffErr, SigErr> {
    SignalErr(SigErr),
    EffectErr(EffErr),
}

} // verus!

//! Sliders that run a system when their value changes.
use vstd::prelude::*;

verus! {

/// The system (`S`) a slider runs with its new value, if any.
pub struct SliderActions<S> {
    on_change: Option<S>,
}

impl<S> SliderActions<S> {
    pub closed spec fn spec_on_change(&self) -> Option<S> {
        self.on_change
    }

    /// A slider that runs nothing.
    pub fn new() -> (r: SliderActions<S>)
        ensures
            r.spec_on_change() is None,
    {
        SliderActions { on_change: None }
    }

    /// The same slider running `system` on a change.
    pub fn with_on_change(self, system: S) -> (r: SliderActions<S>)
        ensures
            r.spec_on_change() == Some(system),
    {
        let mut s = self;
        s.on_change = Some(system);
        s
    }

    /// The system to run when the value changes.
    pub fn on_change(&self) -> (r: Option<&S>)
        ensures
            match r {
                Some(s) => self.spec_on_change() == Some(*s),
                None => self.spec_on_change() is None,
            },
    {
        match &self.on_change {
            Some(s) => Some(s),
            None => None,
        }
    }
}

} // verus!

//! The state that a health-check harness keeps: whether a health check ran, and the
//! reserve index that it watches.
use vstd::prelude::*;

verus! {

/// Whether a health check has run, and the reserve index that `should_check` inspects.
pub struct CheckModel {
    checked: bool,
    skolem_i: u32,
}

/// The two values a `CheckModel` holds.
pub struct CheckModelView {
    pub checked: bool,
    pub skolem_i: u32,
}

impl View for CheckModel {
    type V = CheckModelView;

    closed spec fn view(&self) -> CheckModelView {
        CheckModelView { checked: self.checked, skolem_i: self.skolem_i }
    }
}

impl CheckModel {
    /// A model with the given reserve index and health-check flag; both are chosen
    /// freely by the caller, as any value is possible.
    pub fn init(skolem_i: u32, checked: bool) -> (r: CheckModel)
        ensures
            r@.skolem_i == skolem_i,
            r@.checked == checked,
    {
        CheckModel { checked, skolem_i }
    }

    /// Whether a health check has run.
    pub fn get_checked(&self) -> (r: bool)
        ensures
            r == self@.checked,
    {
        self.checked
    }

    /// Records that a health check has run; the reserve index stays.
    pub fn set_checked(&mut self)
        ensures
            final(self)@.checked,
            final(self)@.skolem_i == old(self)@.skolem_i,
    {
        self.checked = true;
    }

    /// The reserve index that `should_check` inspects.
    pub fn skolem_i(&self) -> (r: u32)
        ensures
            r == self@.skolem_i,
    {
        self.skolem_i
    }
}

} // verus!

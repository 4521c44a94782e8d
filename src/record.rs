use vstd::prelude::*;
use crate::bios::{Outcome, Step};
use crate::model::InstalledContent;

verus! {

/// The record left by an operation that ended in `r`: what was installed
/// where it ended in an installation, else `prev` unchanged.
pub open spec fn recorded_after(prev: Option<InstalledContent>, r: Step) -> Option<InstalledContent> {
    match r {
        Step::Finish(Ok(Outcome::Installed(c))) => Some(c),
        _ => prev,
    }
}

/// The persisted record of what is installed for one component.
pub struct ComponentRecord {
    pub installed: Option<InstalledContent>,
}

impl ComponentRecord {
    /// A record of nothing installed.
    pub fn new() -> (r: Self)
        ensures
            r.installed is None,
    {
        ComponentRecord { installed: None }
    }

    /// Folds the end of an operation into the record: only a finished
    /// installation overwrites it.
    pub fn record(&mut self, r: &Step)
        ensures
            final(self).installed == recorded_after(old(self).installed, *r),
    {
        match r {
            Step::Finish(Ok(Outcome::Installed(c))) => {
                self.installed = Some(c.clone());
            },
            _ => {},
        }
    }
}

} // verus!

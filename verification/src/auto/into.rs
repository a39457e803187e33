//! Turning a prober into an auto prober.

use vstd::prelude::*;

use crate::auto::strategy::AutoProberCfg;
use crate::auto::AutoProber;
use crate::Prober;

verus! {

impl<Store, Sentinel, Proc> Prober<Store, Sentinel, Proc> {
    /// Wraps this prober into an auto prober with the given policy table.
    pub fn into_auto(self, cfg: AutoProberCfg) -> (a: AutoProber<Store, Sentinel, Proc>)
        ensures
            a.spec_prober() == self,
            a.spec_cfg() == cfg,
    {
        AutoProber { prober: self, cfg }
    }
}

} // verus!

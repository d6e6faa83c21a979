//! The status record of a supervisor: what is handed to whoever reports on
//! the services of a host.

use vstd::prelude::*;
use vstd::string::*;
use crate::config::{PackageIdent, RuntimeConfig};
use crate::decimal::decimal;
use crate::supervisor::Supervisor;

verus! {

/// The reportable state of a supervisor, with the state as its lowercase
/// name and the instant at which it was entered as text.
#[derive(Debug)]
pub struct StatusRecord {
    pub pid: Option<u32>,
    pub package_ident: PackageIdent,
    pub preamble: String,
    pub state: String,
    pub state_entered: String,
    pub has_started: bool,
    pub runtime_config: RuntimeConfig,
}

impl StatusRecord {
    /// Whether the record reports `sup` as it is: the identifier of its
    /// child if it holds one, its identity and label, the lowercase name of
    /// its state, the reading of the steady clock at which the state was
    /// entered, in decimal nanoseconds, and its configuration.
    pub open spec fn reports(&self, sup: &Supervisor) -> bool {
        &&& self.pid == match sup.child {
            Some(child) => Some(child.pid),
            None => None,
        }
        &&& self.package_ident == sup.package_ident
        &&& self.preamble@ == sup.preamble@
        &&& self.state@ == sup.state.spec_name()
        &&& self.state_entered@ == decimal(sup.state_entered.nanos as nat)
        &&& self.has_started == sup.has_started
        &&& self.runtime_config == sup.runtime_config
    }
}

impl Supervisor {
    /// The status record of the supervisor as it is now.
    pub fn status_record(&self) -> (record: StatusRecord)
        ensures
            record.reports(self),
    {
        StatusRecord {
            pid: match self.child {
                Some(child) => Some(child.id()),
                None => None,
            },
            package_ident: self.package_ident.clone(),
            preamble: self.preamble.clone(),
            state: self.state.to_string(),
            state_entered: crate::decimal::render(self.state_entered.nanos),
            has_started: self.has_started,
            runtime_config: self.runtime_config.clone(),
        }
    }
}

} // verus!

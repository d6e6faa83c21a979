//! What a supervisor is told once, when it is made: the identity of the
//! package it runs and the identity it runs it under.

use vstd::prelude::*;

verus! {

/// The identity under which every spawn of the service runs.
#[derive(Debug, PartialEq, Eq)]
pub struct RuntimeConfig {
    pub svc_user: String,
    pub svc_group: String,
}

impl RuntimeConfig {
    /// A configuration that runs the service as `svc_user` in `svc_group`.
    pub fn new(svc_user: String, svc_group: String) -> (r: RuntimeConfig)
        ensures
            r.svc_user == svc_user,
            r.svc_group == svc_group,
    {
        RuntimeConfig { svc_user, svc_group }
    }
}

impl Clone for RuntimeConfig {
    fn clone(&self) -> (r: RuntimeConfig)
        ensures
            r == *self,
    {
        RuntimeConfig { svc_user: self.svc_user.clone(), svc_group: self.svc_group.clone() }
    }
}

/// The identity of the package that a service runs.
#[derive(Debug, PartialEq, Eq)]
pub struct PackageIdent {
    pub origin: String,
    pub name: String,
    pub version: Option<String>,
    pub release: Option<String>,
}

impl PackageIdent {
    /// The identity made of the four parts given.
    pub fn new(
        origin: String,
        name: String,
        version: Option<String>,
        release: Option<String>,
    ) -> (r: PackageIdent)
        ensures
            r.origin == origin,
            r.name == name,
            r.version == version,
            r.release == release,
    {
        PackageIdent { origin, name, version, release }
    }
}

impl Clone for PackageIdent {
    fn clone(&self) -> (r: PackageIdent)
        ensures
            r == *self,
    {
        PackageIdent {
            origin: self.origin.clone(),
            name: self.name.clone(),
            version: match &self.version {
                Some(v) => Some(v.clone()),
                None => None,
            },
            release: match &self.release {
                Some(v) => Some(v.clone()),
                None => None,
            },
        }
    }
}

} // verus!

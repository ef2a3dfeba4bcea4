//! The process-wide holder of the current routing configuration.
//!
//! Requests read complete snapshots; a configuration reload replaces the
//! whole installed configuration at once or not at all, and only ever with a
//! strictly newer version.

use vstd::prelude::*;
use crate::service_route::ServiceRouteTable;

verus! {

/// A versioned, immutable snapshot of the runtime-wide routing
/// configuration. Versions grow strictly across installs, so reordered
/// reloads cannot roll the configuration back.
#[derive(Debug)]
pub struct SharedConfig {
    pub version: u64,
    pub table: ServiceRouteTable,
}

/// Why a reload attempt was rejected.
#[derive(Clone, Copy, Debug, PartialEq, Eq, Structural)]
pub enum ReloadError {
    /// The incoming configuration's version is not strictly greater than
    /// the installed one's.
    StaleVersion,
}

/// The container of the currently installed `SharedConfig`: created once at
/// startup, read by every request, replaced wholesale on reload.
#[derive(Debug)]
pub struct SharedRouteTable {
    config: SharedConfig,
}

impl SharedRouteTable {
    /// The installed configuration.
    pub closed spec fn spec_current(self) -> SharedConfig {
        self.config
    }

    /// Creates the container with `initial` installed.
    pub fn new(initial: SharedConfig) -> (r: SharedRouteTable)
        ensures
            r.spec_current() == initial,
    {
        SharedRouteTable { config: initial }
    }

    /// A snapshot of the installed configuration: always the one whole
    /// `SharedConfig` that is current, never a mixture of two.
    pub fn current(&self) -> (r: &SharedConfig)
        ensures
            *r == self.spec_current(),
    {
        &self.config
    }

    /// Installs `incoming` as the current configuration exactly when its
    /// version is strictly greater than the installed one's; a stale
    /// incoming configuration is rejected and the installed one is left
    /// unchanged. Either way the installed configuration afterwards is
    /// wholly one of the two, and its version never decreases.
    pub fn reload(&mut self, incoming: SharedConfig) -> (r: Result<(), ReloadError>)
        ensures
            old(self).spec_current().version < incoming.version ==> {
                &&& final(self).spec_current() == incoming
                &&& r is Ok
            },
            incoming.version <= old(self).spec_current().version ==> {
                &&& final(self).spec_current() == old(self).spec_current()
                &&& r == Err::<(), ReloadError>(ReloadError::StaleVersion)
            },
            final(self).spec_current() == old(self).spec_current() || final(self).spec_current()
                == incoming,
            old(self).spec_current().version <= final(self).spec_current().version,
    {
        if self.config.version < incoming.version {
            self.config = incoming;
            Ok(())
        } else {
            Err(ReloadError::StaleVersion)
        }
    }
}

/// Reload is all-or-nothing: whatever a reload attempt did, a reader's next
/// snapshot is either the configuration installed before the attempt or the
/// incoming one in full — never part of each.
pub proof fn lemma_reload_atomic(
    pre: SharedRouteTable,
    post: SharedRouteTable,
    incoming: SharedConfig,
)
    requires
        post.spec_current() == if pre.spec_current().version < incoming.version {
            incoming
        } else {
            pre.spec_current()
        },
    ensures
        post.spec_current() == pre.spec_current() || post.spec_current() == incoming,
{
}

} // verus!

//! Service routes and the immutable route table built from configuration.

use vstd::prelude::*;
use crate::OperationType;

verus! {

/// An immutable description of one backend target: its identity, its network
/// endpoint, and the operation kinds it accepts.
#[derive(Debug)]
pub struct ServiceRoute {
    pub id: String,
    pub address: String,
    pub accepts_queries: bool,
    pub accepts_mutations: bool,
    pub accepts_subscriptions: bool,
}

impl ServiceRoute {
    /// Whether the route's accepted operation kinds include `ty`.
    pub open spec fn spec_supports(self, ty: OperationType) -> bool {
        match ty {
            OperationType::Query => self.accepts_queries,
            OperationType::Mutation => self.accepts_mutations,
            OperationType::Subscription => self.accepts_subscriptions,
        }
    }

    /// Whether the route accepts the operation kind `ty`.
    pub fn supports(&self, ty: OperationType) -> (r: bool)
        ensures
            r == self.spec_supports(ty),
    {
        match ty {
            OperationType::Query => self.accepts_queries,
            OperationType::Mutation => self.accepts_mutations,
            OperationType::Subscription => self.accepts_subscriptions,
        }
    }

    /// A route is well formed when it accepts at least one operation kind
    /// and its endpoint is not empty.
    pub open spec fn spec_valid(self) -> bool {
        &&& self.accepts_queries || self.accepts_mutations || self.accepts_subscriptions
        &&& self.address@.len() > 0
    }

    /// Whether the route is well formed.
    pub fn valid(&self) -> (r: bool)
        ensures
            r == self.spec_valid(),
    {
        (self.accepts_queries || self.accepts_mutations || self.accepts_subscriptions)
            && !self.address.as_str().is_empty()
    }

    /// A copy of the route, equal to it field for field.
    pub fn duplicate(&self) -> (r: ServiceRoute)
        ensures
            r == *self,
    {
        ServiceRoute {
            id: self.id.clone(),
            address: self.address.clone(),
            accepts_queries: self.accepts_queries,
            accepts_mutations: self.accepts_mutations,
            accepts_subscriptions: self.accepts_subscriptions,
        }
    }
}

/// One configuration entry: a routing key (an operation name, or the
/// wildcard key `*` for the default route) and the route that owns it.
#[derive(Debug)]
pub struct RouteEntry {
    pub key: String,
    pub route: ServiceRoute,
}

/// Why a route table could not be built from configuration.
#[derive(Clone, Copy, Debug, PartialEq, Eq, Structural)]
pub enum RouteConfigError {
    /// Two entries claim the same routing key.
    DuplicateRoute,
    /// An entry's route accepts no operation kind or has an empty endpoint.
    InvalidRoute,
}

/// Every entry's route is well formed.
pub open spec fn all_routes_valid(entries: Seq<RouteEntry>) -> bool {
    forall|i: int| 0 <= i < entries.len() ==> (#[trigger] entries[i].route).spec_valid()
}

/// No two entries claim the same routing key.
pub open spec fn keys_unique(entries: Seq<RouteEntry>) -> bool {
    forall|i: int, j: int|
        0 <= i < j < entries.len() ==> (#[trigger] entries[i].key)@ != (#[trigger] entries[j].key)@
}

/// The route of the first entry whose key is `name`, if any.
pub open spec fn lookup(entries: Seq<RouteEntry>, name: Seq<char>) -> Option<ServiceRoute>
    decreases entries.len(),
{
    if entries.len() == 0 {
        None
    } else if entries[0].key@ == name {
        Some(entries[0].route)
    } else {
        lookup(entries.drop_first(), name)
    }
}

/// What resolution yields for a routing key: the exact match when one
/// exists, else the default route under the wildcard key, else nothing.
pub open spec fn spec_resolve(entries: Seq<RouteEntry>, name: Seq<char>) -> Option<ServiceRoute> {
    match lookup(entries, name) {
        Some(route) => Some(route),
        None => lookup(entries, "*"@),
    }
}

/// An immutable mapping from routing key to service route, built once from
/// validated configuration and never mutated in place.
#[derive(Debug)]
pub struct ServiceRouteTable {
    entries: Vec<RouteEntry>,
}

impl View for ServiceRouteTable {
    type V = Seq<RouteEntry>;

    closed spec fn view(&self) -> Seq<RouteEntry> {
        self.entries@
    }
}

impl ServiceRouteTable {
    /// The table is built only from entries whose routes are all well formed
    /// and whose keys are pairwise distinct.
    pub open spec fn wf(self) -> bool {
        &&& all_routes_valid(self@)
        &&& keys_unique(self@)
    }

    /// Every table that exists was validated when it was built.
    #[verifier::type_invariant]
    spec fn type_inv(self) -> bool {
        self.wf()
    }

    /// Builds the table from configuration entries. Fails with
    /// `InvalidRoute` exactly when some entry's route is not well formed,
    /// and otherwise with `DuplicateRoute` exactly when two entries claim
    /// the same key; on success the table holds the entries as given.
    pub fn try_new(entries: Vec<RouteEntry>) -> (r: Result<ServiceRouteTable, RouteConfigError>)
        ensures
            match r {
                Ok(table) => {
                    &&& table@ == entries@
                    &&& table.wf()
                },
                Err(RouteConfigError::InvalidRoute) => !all_routes_valid(entries@),
                Err(RouteConfigError::DuplicateRoute) => {
                    &&& all_routes_valid(entries@)
                    &&& !keys_unique(entries@)
                },
            },
    {
        let n = entries.len();
        let mut i: usize = 0;
        while i < n
            invariant
                n == entries@.len(),
                i <= n,
                forall|k: int| 0 <= k < i ==> (#[trigger] entries@[k].route).spec_valid(),
            decreases n - i,
        {
            if !entries[i].route.valid() {
                return Err(RouteConfigError::InvalidRoute);
            }
            i = i + 1;
        }
        let mut i: usize = 0;
        while i < n
            invariant
                n == entries@.len(),
                i <= n,
                all_routes_valid(entries@),
                forall|p: int, q: int|
                    0 <= p < q < n && p < i ==> (#[trigger] entries@[p].key)@ != (
                    #[trigger] entries@[q].key)@,
            decreases n - i,
        {
            let mut j: usize = i + 1;
            while j < n
                invariant
                    n == entries@.len(),
                    i < n,
                    i + 1 <= j <= n,
                    all_routes_valid(entries@),
                    forall|q: int| i < q < j ==> (#[trigger] entries@[q].key)@ != entries@[i as int].key@,
                decreases n - j,
            {
                if entries[i].key == entries[j].key {
                    proof {
                        assert(entries@[i as int].key@ == entries@[j as int].key@);
                        assert(!keys_unique(entries@));
                    }
                    return Err(RouteConfigError::DuplicateRoute);
                }
                j = j + 1;
            }
            i = i + 1;
        }
        Ok(ServiceRouteTable { entries })
    }

    /// The route of the first entry whose key equals `name`, if any.
    fn find(&self, name: &String) -> (r: Option<&ServiceRoute>)
        ensures
            match r {
                Some(route) => lookup(self@, name@) == Some(*route),
                None => lookup(self@, name@) is None,
            },
    {
        let n = self.entries.len();
        let mut i: usize = 0;
        proof {
            assert(self.entries@.skip(0) =~= self.entries@);
        }
        while i < n
            invariant
                n == self.entries@.len(),
                i <= n,
                lookup(self.entries@, name@) == lookup(self.entries@.skip(i as int), name@),
            decreases n - i,
        {
            assert(self.entries@.skip(i as int)[0] == self.entries@[i as int]);
            if self.entries[i].key == *name {
                return Some(&self.entries[i].route);
            }
            proof {
                assert(self.entries@.skip(i as int).drop_first() =~= self.entries@.skip(i + 1));
            }
            i = i + 1;
        }
        assert(self.entries@.skip(n as int).len() == 0);
        None
    }

    /// Resolves a routing key to its service route: the exact match when one
    /// exists, else the configured default route, else `None`. The operation
    /// kind never changes which route is found — a kind mismatch is the
    /// dispatcher's policy decision, not a lookup failure.
    pub fn resolve(&self, operation_name: &str, _operation_type: OperationType) -> (r: Option<
        &ServiceRoute,
    >)
        ensures
            match r {
                Some(route) => spec_resolve(self@, operation_name@) == Some(*route),
                None => spec_resolve(self@, operation_name@) is None,
            },
    {
        let name: String = operation_name.to_owned();
        match self.find(&name) {
            Some(route) => Some(route),
            None => {
                let wildcard: String = "*".to_owned();
                self.find(&wildcard)
            },
        }
    }
}

/// Resolution is a pure function of the table's entries and the routing key:
/// two tables with equal entries resolve every key alike, whatever operation
/// kinds the requests carry.
pub proof fn lemma_resolve_pure(a: ServiceRouteTable, b: ServiceRouteTable, name: Seq<char>)
    requires
        a@ == b@,
    ensures
        spec_resolve(a@, name) == spec_resolve(b@, name),
{
}

} // verus!

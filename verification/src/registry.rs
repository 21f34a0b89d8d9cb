//! The worker registry: a read-only mapping from a unique role identifier
//! to a worker, built once at process start and queried by the delegation
//! bridge.

use vstd::prelude::*;
use vstd::string::*;
use crate::strings::str_eq;
use crate::worker::{role_of, Worker, WorkerV};

verus! {

/// The role identifiers of the registered workers, in registration order.
pub open spec fn roles_of(ws: Seq<WorkerV>) -> Seq<Seq<char>> {
    ws.map_values(|w: WorkerV| role_of(w))
}

/// Registered roles are unique.
pub open spec fn registry_wf(ws: Seq<WorkerV>) -> bool {
    forall|i: int, j: int| 0 <= i < j < ws.len() ==> role_of(ws[i]) != role_of(ws[j])
}

/// The first registered worker bearing `role`, if any does.
pub open spec fn lookup_role(ws: Seq<WorkerV>, role: Seq<char>) -> Option<WorkerV>
    decreases ws.len(),
{
    if ws.len() == 0 {
        None
    } else if role_of(ws[0]) == role {
        Some(ws[0])
    } else {
        lookup_role(ws.drop_first(), role)
    }
}

/// A role is absent exactly when no registered worker bears it.
pub proof fn lemma_lookup_role_none(ws: Seq<WorkerV>, role: Seq<char>)
    ensures
        lookup_role(ws, role) is None <==> forall|i: int| 0 <= i < ws.len() ==> role_of(ws[i])
            != role,
    decreases ws.len(),
{
    if ws.len() == 0 {
    } else if role_of(ws[0]) == role {
    } else {
        lemma_lookup_role_none(ws.drop_first(), role);
        assert(forall|i: int| 1 <= i < ws.len() ==> ws[i] == ws.drop_first()[i - 1]);
    }
}

/// The registry of subordinate workers.  Registration happens before any
/// delegation; thereafter the registry is only read.
pub struct WorkerRegistry {
    entries: Vec<Worker>,
}

impl View for WorkerRegistry {
    type V = Seq<WorkerV>;

    closed spec fn view(&self) -> Seq<WorkerV> {
        self.entries.deep_view()
    }
}

impl WorkerRegistry {
    /// An empty registry.
    pub fn new() -> (r: WorkerRegistry)
        ensures
            r@ =~= Seq::<WorkerV>::empty(),
            registry_wf(r@),
    {
        WorkerRegistry { entries: Vec::new() }
    }

    /// Registers a worker under its role.  The role must be fresh: roles
    /// are unique keys.
    pub fn register(&mut self, w: Worker)
        requires
            registry_wf(old(self)@),
            lookup_role(old(self)@, role_of(w@)) is None,
        ensures
            final(self)@ == old(self)@.push(w@),
            registry_wf(final(self)@),
    {
        proof {
            lemma_lookup_role_none(self@, role_of(w@));
        }
        let ghost before = self@;
        self.entries.push(w);
        proof {
            assert(self@ =~= before.push(w@));
        }
    }

    /// How many workers are registered.
    pub fn count(&self) -> (n: usize)
        ensures
            n == self@.len(),
    {
        self.entries.len()
    }

    /// The registered workers, in registration order.
    pub fn workers(&self) -> (r: &Vec<Worker>)
        ensures
            r.deep_view() == self@,
    {
        &self.entries
    }

    /// Whether some registered worker bears `role`.
    pub fn has_role(&self, role: &str) -> (r: bool)
        ensures
            r == (lookup_role(self@, role@) is Some),
    {
        self.get(role).is_some()
    }

    /// The registered worker bearing `role`, when one does.
    pub fn get(&self, role: &str) -> (r: Option<&Worker>)
        ensures
            match r {
                Some(w) => lookup_role(self@, role@) == Some(w@),
                None => lookup_role(self@, role@) is None,
            },
    {
        let n: usize = self.entries.len();
        let mut i: usize = 0;
        proof {
            assert(self@.skip(0) =~= self@);
        }
        while i < n
            invariant
                n == self.entries@.len(),
                i <= n,
                lookup_role(self@, role@) == lookup_role(self@.skip(i as int), role@),
            decreases n - i,
        {
            proof {
                assert(self@.skip(i as int).drop_first() =~= self@.skip(i + 1));
                assert(self@.skip(i as int)[0] == self@[i as int]);
            }
            let w = &self.entries[i];
            if str_eq(w.role(), role) {
                return Some(w);
            }
            i = i + 1;
        }
        proof {
            assert(self@.skip(n as int) =~= Seq::<WorkerV>::empty());
        }
        None
    }

    /// The role identifiers of all registered workers, in registration
    /// order.
    pub fn all_roles(&self) -> (r: Vec<String>)
        ensures
            r.deep_view() =~= roles_of(self@),
    {
        let n: usize = self.entries.len();
        let mut roles: Vec<String> = Vec::new();
        let mut i: usize = 0;
        while i < n
            invariant
                n == self.entries@.len(),
                i <= n,
                roles@.len() == i,
                forall|j: int| 0 <= j < i ==> roles@[j]@ == role_of(self@[j]),
            decreases n - i,
        {
            roles.push(String::from_str(self.entries[i].role()));
            i = i + 1;
        }
        roles
    }
}

} // verus!

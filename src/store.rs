use vstd::prelude::*;
use crate::principal::Principal;

verus! {

/// Ghost picture of what the registry's storage holds: the initialization
/// flag and, once written, the administrators in the order they were added.
pub struct RegistryState {
    pub initialized: bool,
    pub admins: Option<Seq<Seq<char>>>,
}

/// The addresses of a sequence of principals.
pub open spec fn addresses(v: Seq<Principal>) -> Seq<Seq<char>> {
    v.map_values(|p: Principal| p@)
}

/// The administrators of a state; empty while no registry is stored.
pub open spec fn admin_seq(s: RegistryState) -> Seq<Seq<char>> {
    match s.admins {
        Some(a) => a,
        None => Seq::empty(),
    }
}

/// Whether `p` is an administrator in `s`; never true without a registry.
pub open spec fn is_admin_in(s: RegistryState, p: Seq<char>) -> bool {
    match s.admins {
        Some(a) => a.contains(p),
        None => false,
    }
}

/// The invariants every reachable state keeps: the flag and the registry are
/// written together, and a stored registry is non-empty and duplicate free.
pub open spec fn state_wf(s: RegistryState) -> bool {
    &&& s.initialized == s.admins.is_some()
    &&& s.admins matches Some(a) ==> a.len() > 0 && a.no_duplicates()
}

/// The state that a registry entry and an initialization flag stand for.
pub open spec fn stored_state(
    registry: Option<Vec<Principal>>,
    initialized: bool,
) -> RegistryState {
    RegistryState {
        initialized,
        admins: match registry {
            Some(v) => Some(addresses(v@)),
            None => None,
        },
    }
}

/// The durable state of one registry deployment: the registry entry and the
/// initialization flag, as the host's keyed store holds them.
pub struct RegistryStore {
    registry: Option<Vec<Principal>>,
    initialized: bool,
}

impl View for RegistryStore {
    type V = RegistryState;

    closed spec fn view(&self) -> RegistryState {
        stored_state(self.registry, self.initialized)
    }
}

/// Index of the principal with address `p` in `v`, if there is one.
pub fn position_of(v: &Vec<Principal>, p: &Principal) -> (r: Option<usize>)
    ensures
        match r {
            Some(i) => i < v@.len() && v@[i as int]@ == p@ && addresses(v@).contains(p@),
            None => !addresses(v@).contains(p@),
        },
{
    let mut i: usize = 0;
    while i < v.len()
        invariant
            i <= v@.len(),
            forall|j: int| 0 <= j < i ==> v@[j]@ != p@,
        decreases v@.len() - i,
    {
        if v[i] == *p {
            proof {
                assert(addresses(v@)[i as int] == p@);
            }
            return Some(i);
        }
        i = i + 1;
    }
    proof {
        if addresses(v@).contains(p@) {
            let j = choose|j: int| 0 <= j < addresses(v@).len() && addresses(v@)[j] == p@;
            assert(v@[j]@ == p@);
        }
    }
    None
}

impl RegistryStore {
    pub open spec fn wf(&self) -> bool {
        state_wf(self@)
    }

    /// A store for a fresh deployment: no flag, no registry.
    pub fn new() -> (r: RegistryStore)
        ensures
            r@ == (RegistryState { initialized: false, admins: None }),
            r.wf(),
    {
        RegistryStore { registry: None, initialized: false }
    }

    /// Rebuilds a store from the values its two keys hold; `None` where they
    /// break the invariants that the registry's operations keep.
    pub fn from_parts(registry: Option<Vec<Principal>>, initialized: bool) -> (r: Option<
        RegistryStore,
    >)
        ensures
            match r {
                Some(st) => state_wf(stored_state(registry, initialized)) && st@ == stored_state(
                    registry,
                    initialized,
                ),
                None => !state_wf(stored_state(registry, initialized)),
            },
    {
        if initialized != registry.is_some() {
            return None;
        }
        match &registry {
            None => {},
            Some(v) => {
                if v.len() == 0 {
                    return None;
                }
                let mut i: usize = 0;
                while i < v.len()
                    invariant
                        registry == Some(*v),
                        i <= v@.len(),
                        forall|a: int, b: int|
                            0 <= a < b < v@.len() && a < i ==> v@[a]@ != v@[b]@,
                    decreases v@.len() - i,
                {
                    let mut j: usize = i + 1;
                    while j < v.len()
                        invariant
                            registry == Some(*v),
                            i < j <= v@.len(),
                            i < v@.len(),
                            forall|a: int, b: int|
                                0 <= a < b < v@.len() && a < i ==> v@[a]@ != v@[b]@,
                            forall|b: int| i < b < j ==> v@[i as int]@ != v@[b]@,
                        decreases v@.len() - j,
                    {
                        if v[i] == v[j] {
                            proof {
                                let a = addresses(v@);
                                assert(v@[i as int]@ == v@[j as int]@);
                                assert(a[i as int] == v@[i as int]@);
                                assert(a[j as int] == v@[j as int]@);
                                assert(!a.no_duplicates());
                            }
                            return None;
                        }
                        j = j + 1;
                    }
                    i = i + 1;
                }
                assert(addresses(v@).no_duplicates());
            },
        }
        Some(RegistryStore { registry, initialized })
    }

    /// The registry entry, if one was written.
    pub fn registry(&self) -> (r: Option<&Vec<Principal>>)
        ensures
            match r {
                Some(v) => self@.admins == Some(addresses(v@)),
                None => self@.admins is None,
            },
    {
        match &self.registry {
            Some(v) => Some(v),
            None => None,
        }
    }

    /// The initialization flag.
    pub fn is_initialized(&self) -> (r: bool)
        ensures
            r == self@.initialized,
    {
        self.initialized
    }

    /// Writes both keys at once: the flag, and a registry holding `p` alone.
    pub(crate) fn write_bootstrap(&mut self, p: Principal)
        ensures
            final(self)@ == (RegistryState { initialized: true, admins: Some(seq![p@]) }),
    {
        let mut v: Vec<Principal> = Vec::new();
        v.push(p);
        proof {
            assert(addresses(v@) =~= seq![p@]);
        }
        self.registry = Some(v);
        self.initialized = true;
    }

    /// Appends `p` to the stored registry.
    pub(crate) fn push_admin(&mut self, p: Principal)
        requires
            old(self)@.admins is Some,
        ensures
            final(self)@ == (RegistryState {
                initialized: old(self)@.initialized,
                admins: Some(admin_seq(old(self)@).push(p@)),
            }),
    {
        let mut v = self.registry.take().unwrap();
        v.push(p);
        proof {
            assert(addresses(v@) =~= admin_seq(old(self)@).push(p@));
        }
        self.registry = Some(v);
    }

    /// Drops the administrator at index `i` of the stored registry.
    pub(crate) fn remove_admin_at(&mut self, i: usize)
        requires
            i < admin_seq(old(self)@).len(),
            old(self)@.admins is Some,
        ensures
            final(self)@ == (RegistryState {
                initialized: old(self)@.initialized,
                admins: Some(admin_seq(old(self)@).remove(i as int)),
            }),
    {
        let mut v = self.registry.take().unwrap();
        v.remove(i);
        proof {
            assert(addresses(v@) =~= admin_seq(old(self)@).remove(i as int));
        }
        self.registry = Some(v);
    }
}

} // verus!

use vstd::prelude::*;

verus! {

/// An actor identified by its address text.
pub struct Principal {
    address: String,
}

impl View for Principal {
    type V = Seq<char>;

    closed spec fn view(&self) -> Seq<char> {
        self.address@
    }
}

impl Principal {
    pub fn new(address: String) -> (r: Principal)
        ensures
            r@ == address@,
    {
        Principal { address }
    }

    pub fn address(&self) -> (r: &String)
        ensures
            r@ == self@,
    {
        &self.address
    }

    /// A principal is well formed when its address is not empty.
    pub fn is_well_formed(&self) -> (r: bool)
        ensures
            r == well_formed(self@),
    {
        !self.address.as_str().is_empty()
    }
}

/// What a well-formed principal address is.
pub open spec fn well_formed(p: Seq<char>) -> bool {
    p.len() > 0
}

impl Clone for Principal {
    fn clone(&self) -> (r: Principal)
        ensures
            r@ == self@,
    {
        Principal { address: self.address.clone() }
    }
}

impl PartialEq for Principal {
    fn eq(&self, other: &Principal) -> (r: bool) {
        self.address == other.address
    }
}

impl vstd::std_specs::cmp::PartialEqSpecImpl for Principal {
    open spec fn obeys_eq_spec() -> bool {
        true
    }

    open spec fn eq_spec(&self, other: &Principal) -> bool {
        self@ == other@
    }
}

impl Eq for Principal {
}

/// The principal on whose behalf an operation is invoked, together with the
/// outcome of the host's check that the invocation was authorised by it.
pub struct Caller {
    principal: Principal,
    authenticated: bool,
}

/// Ghost picture of a caller: its address and whether it proved its identity.
pub struct CallerView {
    pub principal: Seq<char>,
    pub authenticated: bool,
}

impl View for Caller {
    type V = CallerView;

    closed spec fn view(&self) -> CallerView {
        CallerView { principal: self.principal@, authenticated: self.authenticated }
    }
}

impl Caller {
    pub fn new(principal: Principal, authenticated: bool) -> (r: Caller)
        ensures
            r@ == (CallerView { principal: principal@, authenticated }),
    {
        Caller { principal, authenticated }
    }

    /// A caller whose identity the host has verified.
    pub fn authenticated(principal: Principal) -> (r: Caller)
        ensures
            r@ == (CallerView { principal: principal@, authenticated: true }),
    {
        Caller { principal, authenticated: true }
    }

    pub fn principal(&self) -> (r: &Principal)
        ensures
            r@ == self@.principal,
    {
        &self.principal
    }

    pub fn is_authenticated(&self) -> (r: bool)
        ensures
            r == self@.authenticated,
    {
        self.authenticated
    }
}

} // verus!

use vstd::prelude::*;
use crate::error::AdminError;
use crate::laws::lemma_steps_keep_wf;
use crate::principal::{well_formed, Caller, CallerView, Principal};
use crate::store::{
    addresses, admin_seq, is_admin_in, position_of, RegistryState, RegistryStore,
};

verus! {

/// What `initialize` does: the state afterwards and the result.
pub open spec fn initialize_step(s: RegistryState, admin: Seq<char>) -> (
    RegistryState,
    Result<(), AdminError>,
) {
    if s.initialized {
        (s, Err(AdminError::AlreadyInitialized))
    } else {
        (RegistryState { initialized: true, admins: Some(seq![admin]) }, Ok(()))
    }
}

/// Whether the caller may change the registry: it proved its identity and is
/// a current administrator.
pub open spec fn may_govern(s: RegistryState, c: CallerView) -> bool {
    c.authenticated && is_admin_in(s, c.principal)
}

/// What `add_admin` does. The checks come in a fixed order, the first that
/// fails decides the error, and a rejected call leaves the state as it was.
pub open spec fn add_admin_step(s: RegistryState, c: CallerView, p: Seq<char>) -> (
    RegistryState,
    Result<(), AdminError>,
) {
    if !may_govern(s, c) {
        (s, Err(AdminError::Unauthorized))
    } else if !well_formed(p) {
        (s, Err(AdminError::InvalidAddress))
    } else if is_admin_in(s, p) {
        (s, Err(AdminError::AlreadyAdmin))
    } else {
        let admins = Some(admin_seq(s).push(p));
        (RegistryState { initialized: s.initialized, admins }, Ok(()))
    }
}

/// What `remove_admin` does, with the same ordering and no-effect rules.
pub open spec fn remove_admin_step(s: RegistryState, c: CallerView, p: Seq<char>) -> (
    RegistryState,
    Result<(), AdminError>,
) {
    if !may_govern(s, c) {
        (s, Err(AdminError::Unauthorized))
    } else if !is_admin_in(s, p) {
        (s, Err(AdminError::NotAdmin))
    } else if admin_seq(s).len() <= 1 {
        (s, Err(AdminError::LastAdminRemoval))
    } else {
        let admins = Some(admin_seq(s).remove_value(p));
        (RegistryState { initialized: s.initialized, admins }, Ok(()))
    }
}

/// The registry's operations. All state lives in the `RegistryStore` handed
/// to each call.
pub struct AdminRoleManager;

impl AdminRoleManager {
    /// Bootstraps the registry with `initial_admin` as its only member.
    pub fn initialize(store: &mut RegistryStore, initial_admin: Principal) -> (r: Result<
        (),
        AdminError,
    >)
        requires
            old(store).wf(),
        ensures
            (final(store)@, r) == initialize_step(old(store)@, initial_admin@),
            final(store).wf(),
    {
        if store.is_initialized() {
            return Err(AdminError::AlreadyInitialized);
        }
        store.write_bootstrap(initial_admin);
        Ok(())
    }

    /// Adds `new_admin`, on behalf of `invoker`, who must be an authenticated
    /// administrator.
    pub fn add_admin(store: &mut RegistryStore, invoker: Caller, new_admin: Principal) -> (r: Result<
        (),
        AdminError,
    >)
        requires
            old(store).wf(),
        ensures
            (final(store)@, r) == add_admin_step(old(store)@, invoker@, new_admin@),
            final(store).wf(),
    {
        if !invoker.is_authenticated() || !Self::is_admin(store, invoker.principal()) {
            return Err(AdminError::Unauthorized);
        }
        if !new_admin.is_well_formed() {
            return Err(AdminError::InvalidAddress);
        }
        let admins = Self::get_admin_registry(store)?;
        if position_of(admins, &new_admin).is_some() {
            return Err(AdminError::AlreadyAdmin);
        }
        proof {
            lemma_steps_keep_wf(store@, invoker@, new_admin@);
        }
        store.push_admin(new_admin);
        Ok(())
    }

    /// Removes `admin_to_remove`, on behalf of `invoker`, who must be an
    /// authenticated administrator; the last administrator stays.
    pub fn remove_admin(
        store: &mut RegistryStore,
        invoker: Caller,
        admin_to_remove: Principal,
    ) -> (r: Result<(), AdminError>)
        requires
            old(store).wf(),
        ensures
            (final(store)@, r) == remove_admin_step(old(store)@, invoker@, admin_to_remove@),
            final(store).wf(),
    {
        if !invoker.is_authenticated() || !Self::is_admin(store, invoker.principal()) {
            return Err(AdminError::Unauthorized);
        }
        let admins = Self::get_admin_registry(store)?;
        let found = position_of(admins, &admin_to_remove);
        let i = match found {
            Some(i) => i,
            None => {
                return Err(AdminError::NotAdmin);
            },
        };
        if admins.len() <= 1 {
            return Err(AdminError::LastAdminRemoval);
        }
        proof {
            let a = admin_seq(store@);
            assert(a[i as int] == admin_to_remove@);
            a.index_of_first_ensures(admin_to_remove@);
            let k = a.index_of_first(admin_to_remove@).unwrap();
            assert(k == i as int);
            lemma_steps_keep_wf(store@, invoker@, admin_to_remove@);
        }
        store.remove_admin_at(i);
        Ok(())
    }

    /// Whether `address` is an administrator; `false` before initialization.
    pub fn is_admin(store: &RegistryStore, address: &Principal) -> (r: bool)
        ensures
            r == is_admin_in(store@, address@),
    {
        match Self::get_admin_registry(store) {
            Ok(admins) => position_of(admins, address).is_some(),
            Err(_) => false,
        }
    }

    /// Every current administrator, in the order they were added.
    pub fn get_admins(store: &RegistryStore) -> (r: Result<Vec<Principal>, AdminError>)
        ensures
            match r {
                Ok(v) => store@.admins == Some(addresses(v@)),
                Err(e) => store@.admins is None && e == AdminError::RegistryMissing,
            },
    {
        let admins = Self::get_admin_registry(store)?;
        let mut admin_list: Vec<Principal> = Vec::new();
        let mut i: usize = 0;
        while i < admins.len()
            invariant
                i <= admins@.len(),
                admin_list@.len() == i,
                store@.admins == Some(addresses(admins@)),
                addresses(admin_list@) =~= addresses(admins@).subrange(0, i as int),
            decreases admins@.len() - i,
        {
            let p = admins[i].clone();
            assert(p@ == admins@[i as int]@);
            admin_list.push(p);
            proof {
                assert(addresses(admin_list@)[i as int] == addresses(admins@)[i as int]);
                assert(addresses(admin_list@) =~= addresses(admins@).subrange(0, i + 1));
            }
            i = i + 1;
        }
        proof {
            assert(addresses(admins@).subrange(0, i as int) =~= addresses(admins@));
        }
        Ok(admin_list)
    }

    /// How many administrators there are.
    pub fn admin_count(store: &RegistryStore) -> (r: Result<usize, AdminError>)
        ensures
            match r {
                Ok(n) => store@.admins is Some && n == admin_seq(store@).len(),
                Err(e) => store@.admins is None && e == AdminError::RegistryMissing,
            },
    {
        let admins = Self::get_admin_registry(store)?;
        Ok(admins.len())
    }

    /// The stored registry, or `RegistryMissing` before initialization.
    fn get_admin_registry(store: &RegistryStore) -> (r: Result<&Vec<Principal>, AdminError>)
        ensures
            match r {
                Ok(v) => store@.admins == Some(addresses(v@)),
                Err(e) => store@.admins is None && e == AdminError::RegistryMissing,
            },
    {
        match store.registry() {
            Some(v) => Ok(v),
            None => Err(AdminError::RegistryMissing),
        }
    }
}

} // verus!

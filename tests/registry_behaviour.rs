use admin_roles::error::AdminError;
use admin_roles::manager::AdminRoleManager;
use admin_roles::principal::{Caller, Principal};
use admin_roles::store::RegistryStore;

fn named(s: &str) -> Principal {
    Principal::new(String::from(s))
}

fn signed(p: &Principal) -> Caller {
    Caller::authenticated(p.clone())
}

fn addresses(store: &RegistryStore) -> Vec<String> {
    AdminRoleManager::get_admins(store)
        .unwrap()
        .iter()
        .map(|p| p.address().clone())
        .collect()
}

#[test]
fn bootstrap_then_second_initialize_keeps_membership() {
    let mut store = RegistryStore::new();
    assert_eq!(AdminRoleManager::initialize(&mut store, named("A")), Ok(()));
    assert!(AdminRoleManager::is_admin(&store, &named("A")));
    assert_eq!(
        AdminRoleManager::initialize(&mut store, named("B")),
        Err(AdminError::AlreadyInitialized)
    );
    assert_eq!(addresses(&store), vec!["A".to_string()]);
    assert!(!AdminRoleManager::is_admin(&store, &named("B")));
}

#[test]
fn non_admin_cannot_change_membership() {
    let mut store = RegistryStore::new();
    AdminRoleManager::initialize(&mut store, named("A")).unwrap();
    AdminRoleManager::add_admin(&mut store, signed(&named("A")), named("B")).unwrap();
    let u = named("U");
    assert_eq!(
        AdminRoleManager::add_admin(&mut store, signed(&u), named("X")),
        Err(AdminError::Unauthorized)
    );
    assert_eq!(
        AdminRoleManager::remove_admin(&mut store, signed(&u), named("B")),
        Err(AdminError::Unauthorized)
    );
    assert_eq!(addresses(&store), vec!["A".to_string(), "B".to_string()]);
}

#[test]
fn unauthenticated_admin_is_unauthorized() {
    let mut store = RegistryStore::new();
    AdminRoleManager::initialize(&mut store, named("A")).unwrap();
    AdminRoleManager::add_admin(&mut store, signed(&named("A")), named("B")).unwrap();
    let forged = Caller::new(named("A"), false);
    assert!(!forged.is_authenticated());
    assert_eq!(
        AdminRoleManager::add_admin(&mut store, forged, named("C")),
        Err(AdminError::Unauthorized)
    );
    let forged = Caller::new(named("A"), false);
    assert_eq!(
        AdminRoleManager::remove_admin(&mut store, forged, named("B")),
        Err(AdminError::Unauthorized)
    );
    assert_eq!(AdminRoleManager::admin_count(&store), Ok(2));
}

#[test]
fn duplicate_add_keeps_size_two() {
    let mut store = RegistryStore::new();
    AdminRoleManager::initialize(&mut store, named("A")).unwrap();
    AdminRoleManager::add_admin(&mut store, signed(&named("A")), named("B")).unwrap();
    assert_eq!(
        AdminRoleManager::add_admin(&mut store, signed(&named("A")), named("B")),
        Err(AdminError::AlreadyAdmin)
    );
    assert_eq!(AdminRoleManager::admin_count(&store), Ok(2));
}

#[test]
fn sole_admin_cannot_remove_itself() {
    let mut store = RegistryStore::new();
    AdminRoleManager::initialize(&mut store, named("A")).unwrap();
    assert_eq!(
        AdminRoleManager::remove_admin(&mut store, signed(&named("A")), named("A")),
        Err(AdminError::LastAdminRemoval)
    );
    assert!(AdminRoleManager::is_admin(&store, &named("A")));
    assert_eq!(addresses(&store), vec!["A".to_string()]);
}

#[test]
fn removal_leaves_one_admin() {
    let mut store = RegistryStore::new();
    AdminRoleManager::initialize(&mut store, named("A")).unwrap();
    AdminRoleManager::add_admin(&mut store, signed(&named("A")), named("B")).unwrap();
    assert_eq!(
        AdminRoleManager::remove_admin(&mut store, signed(&named("A")), named("B")),
        Ok(())
    );
    assert!(!AdminRoleManager::is_admin(&store, &named("B")));
    assert_eq!(AdminRoleManager::admin_count(&store), Ok(1));
}

#[test]
fn count_matches_listing_after_changes() {
    let mut store = RegistryStore::new();
    AdminRoleManager::initialize(&mut store, named("A")).unwrap();
    for n in ["B", "C", "D"] {
        AdminRoleManager::add_admin(&mut store, signed(&named("A")), named(n)).unwrap();
    }
    AdminRoleManager::remove_admin(&mut store, signed(&named("C")), named("A")).unwrap();
    let listed = AdminRoleManager::get_admins(&store).unwrap();
    assert_eq!(AdminRoleManager::admin_count(&store), Ok(listed.len()));
    assert_eq!(listed.len(), 3);
    for p in listed.iter() {
        assert!(AdminRoleManager::is_admin(&store, p));
    }
    assert_eq!(addresses(&store), vec!["B".to_string(), "C".to_string(), "D".to_string()]);
}

#[test]
fn add_add_remove_scenario() {
    let mut store = RegistryStore::new();
    AdminRoleManager::initialize(&mut store, named("A")).unwrap();
    AdminRoleManager::add_admin(&mut store, signed(&named("A")), named("B")).unwrap();
    AdminRoleManager::add_admin(&mut store, signed(&named("A")), named("C")).unwrap();
    AdminRoleManager::remove_admin(&mut store, signed(&named("A")), named("B")).unwrap();
    assert_eq!(addresses(&store), vec!["A".to_string(), "C".to_string()]);
    assert_eq!(AdminRoleManager::admin_count(&store), Ok(2));
    assert!(!AdminRoleManager::is_admin(&store, &named("B")));
}

#[test]
fn remove_self_as_sole_admin_reports_last_admin() {
    let mut store = RegistryStore::new();
    AdminRoleManager::initialize(&mut store, named("A")).unwrap();
    let r = AdminRoleManager::remove_admin(&mut store, signed(&named("A")), named("A"));
    assert_eq!(r.err().map(|e| e.code()), Some("last_admin"));
    assert_eq!(addresses(&store), vec!["A".to_string()]);
}

#[test]
fn uninitialized_registry() {
    let mut store = RegistryStore::new();
    assert!(!AdminRoleManager::is_admin(&store, &named("X")));
    assert_eq!(
        AdminRoleManager::add_admin(&mut store, signed(&named("X")), named("Y")),
        Err(AdminError::Unauthorized)
    );
    assert_eq!(
        AdminRoleManager::remove_admin(&mut store, signed(&named("X")), named("Y")),
        Err(AdminError::Unauthorized)
    );
    assert_eq!(AdminRoleManager::get_admins(&store).err(), Some(AdminError::RegistryMissing));
    assert_eq!(AdminRoleManager::admin_count(&store), Err(AdminError::RegistryMissing));
    assert!(!store.is_initialized());
    assert!(store.registry().is_none());
}

#[test]
fn empty_address_is_rejected_after_authorization() {
    let mut store = RegistryStore::new();
    AdminRoleManager::initialize(&mut store, named("A")).unwrap();
    assert_eq!(
        AdminRoleManager::add_admin(&mut store, signed(&named("A")), named("")),
        Err(AdminError::InvalidAddress)
    );
    assert_eq!(
        AdminRoleManager::add_admin(&mut store, signed(&named("Z")), named("")),
        Err(AdminError::Unauthorized)
    );
    assert_eq!(
        AdminRoleManager::add_admin(&mut store, signed(&named("A")), named("A")),
        Err(AdminError::AlreadyAdmin)
    );
    assert_eq!(AdminRoleManager::admin_count(&store), Ok(1));
}

#[test]
fn removing_a_non_member_is_not_admin() {
    let mut store = RegistryStore::new();
    AdminRoleManager::initialize(&mut store, named("A")).unwrap();
    assert_eq!(
        AdminRoleManager::remove_admin(&mut store, signed(&named("A")), named("Q")),
        Err(AdminError::NotAdmin)
    );
    assert_eq!(AdminRoleManager::admin_count(&store), Ok(1));
}

#[test]
fn error_codes_are_stable() {
    assert_eq!(AdminError::AlreadyInitialized.code(), "already_init");
    assert_eq!(AdminError::Unauthorized.code(), "unauthorized");
    assert_eq!(AdminError::InvalidAddress.code(), "invalid_addr");
    assert_eq!(AdminError::AlreadyAdmin.code(), "already_admin");
    assert_eq!(AdminError::NotAdmin.code(), "not_admin");
    assert_eq!(AdminError::LastAdminRemoval.code(), "last_admin");
    assert_eq!(AdminError::RegistryMissing.code(), "no_registry");
}

#[test]
fn stored_parts_are_validated() {
    let ok = RegistryStore::from_parts(Some(vec![named("A"), named("B")]), true).unwrap();
    assert_eq!(addresses(&ok), vec!["A".to_string(), "B".to_string()]);
    assert!(ok.is_initialized());
    assert!(RegistryStore::from_parts(None, false).is_some());
    assert!(RegistryStore::from_parts(None, true).is_none());
    assert!(RegistryStore::from_parts(Some(vec![named("A")]), false).is_none());
    assert!(RegistryStore::from_parts(Some(vec![]), true).is_none());
    let twice = vec![named("A"), named("B"), named("A")];
    assert!(RegistryStore::from_parts(Some(twice), true).is_none());
}

#[test]
fn principal_accessors() {
    let p = named("GABC");
    assert_eq!(p.address(), "GABC");
    assert!(p.is_well_formed());
    assert!(!named("").is_well_formed());
    assert!(p == p.clone());
    assert!(p != named("GABD"));
    let c = Caller::new(p.clone(), true);
    assert!(c.principal() == &p);
    assert!(c.is_authenticated());
}

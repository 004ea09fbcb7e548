use vstd::prelude::*;

verus! {

/// Why a registry operation was rejected.
#[derive(Clone, Copy, Debug, PartialEq, Eq, Structural)]
pub enum AdminError {
    AlreadyInitialized,
    Unauthorized,
    InvalidAddress,
    AlreadyAdmin,
    NotAdmin,
    LastAdminRemoval,
    RegistryMissing,
}

/// The stable short tag under which each error is reported to callers.
pub open spec fn error_code(e: AdminError) -> Seq<char> {
    match e {
        AdminError::AlreadyInitialized => "already_init"@,
        AdminError::Unauthorized => "unauthorized"@,
        AdminError::InvalidAddress => "invalid_addr"@,
        AdminError::AlreadyAdmin => "already_admin"@,
        AdminError::NotAdmin => "not_admin"@,
        AdminError::LastAdminRemoval => "last_admin"@,
        AdminError::RegistryMissing => "no_registry"@,
    }
}

impl AdminError {
    pub fn code(&self) -> (r: &'static str)
        ensures
            r@ == error_code(*self),
    {
        match self {
            AdminError::AlreadyInitialized => "already_init",
            AdminError::Unauthorized => "unauthorized",
            AdminError::InvalidAddress => "invalid_addr",
            AdminError::AlreadyAdmin => "already_admin",
            AdminError::NotAdmin => "not_admin",
            AdminError::LastAdminRemoval => "last_admin",
            AdminError::RegistryMissing => "no_registry",
        }
    }
}

} // verus!

//! The admin slot that every contract keeps: set once, then consulted
//! before privileged operations.

use vstd::prelude::*;
use crate::address::Address;

verus! {

/// The outcome of comparing a caller with the stored admin.
#[derive(Debug, Clone, Copy, PartialEq, Eq, Structural)]
pub enum AdminCheck {
    /// No admin has been stored yet.
    Missing,
    /// An admin is stored and the caller is someone else.
    Mismatch,
    /// The caller is the stored admin.
    Granted,
}

/// What comparing `caller` with the admin slot `stored` gives.
pub open spec fn admin_check_spec(stored: Option<Seq<u8>>, caller: Seq<u8>) -> AdminCheck {
    match stored {
        None => AdminCheck::Missing,
        Some(a) => if a == caller { AdminCheck::Granted } else { AdminCheck::Mismatch },
    }
}

/// The view of an optional identity.
pub open spec fn opt_view(a: Option<Address>) -> Option<Seq<u8>> {
    match a {
        None => None,
        Some(x) => Some(x@),
    }
}

/// Compares `caller` with the admin stored in `stored`.
pub fn check_admin(stored: &Option<Address>, caller: &Address) -> (r: AdminCheck)
    ensures
        r == admin_check_spec(opt_view(*stored), caller@),
{
    match stored {
        None => AdminCheck::Missing,
        Some(a) => if a.same(caller) { AdminCheck::Granted } else { AdminCheck::Mismatch },
    }
}

/// Stores `admin` in an empty admin slot. Returns `false`, and leaves the
/// slot as it was, when an admin is already stored.
pub fn install_admin(slot: &mut Option<Address>, admin: Address) -> (r: bool)
    ensures
        r == (*old(slot) is None),
        r ==> opt_view(*final(slot)) == Some(admin@),
        !r ==> *final(slot) == *old(slot),
{
    if slot.is_some() {
        false
    } else {
        *slot = Some(admin);
        true
    }
}

} // verus!

//! The identity of an authenticated caller.

use vstd::prelude::*;
use crate::ident::Uuid;

verus! {

/// What an authenticated request carries: the identifier of the user who
/// makes it.
#[derive(Clone, Copy, Debug, PartialEq, Eq, Structural)]
pub struct UserToken {
    pub user_id: Uuid,
}

} // verus!

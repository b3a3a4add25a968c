use vstd::prelude::*;
use crate::ident::random_uuid;
use crate::user::{record_for, User, UserRequest};

verus! {

/// A new active record made from `req`, its fields copied verbatim, under a
/// freshly drawn random identifier.
pub fn create_user(req: UserRequest) -> (u: User)
    ensures
        u@ == record_for(req@, u.id),
{
    let id = random_uuid();
    User {
        id,
        is_active: true,
        username: req.username,
        password: req.password,
        email: req.email,
    }
}

} // verus!

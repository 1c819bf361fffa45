//! Request and response shapes of the HTTP surface.
//!
//! The wire format wraps most payloads in an outer object under a `user`
//! key, which is why each payload comes with a thin request wrapper. The
//! host's boundary layer moves these between JSON and the plain values
//! here; the core only reads and builds them.

use vstd::prelude::*;

verus! {

/// Partial update of an account: absent fields keep their stored value.
pub struct UpdateUser {
    pub email: Option<String>,
    pub username: Option<String>,
    pub password: Option<String>,
    pub image: Option<String>,
    pub bio: Option<String>,
}

/// The `user`-wrapped update payload.
pub struct UpdateUserRequest {
    pub update_user: UpdateUser,
}

/// The `user`-wrapped login payload.
pub struct LoginUserRequest {
    pub login_user: LoginUser,
}

/// Credentials presented at login.
pub struct LoginUser {
    pub email: String,
    pub password: String,
}

/// The `user`-wrapped success payload every handler answers with.
pub struct UserResponse {
    pub user: UserJson,
}

/// The account as shown to its owner, with a fresh token.
pub struct UserJson {
    pub email: String,
    pub token: String,
    pub username: String,
    pub bio: Option<String>,
    pub image: Option<String>,
}

/// The `user`-wrapped registration payload.
pub struct NewUserRequest {
    pub new_user: NewUser,
}

/// What a new account is made from.
pub struct NewUser {
    pub username: String,
    pub email: String,
    pub password: String,
}

} // verus!

//! The stored account as the core sees it.
//!
//! The persistence layer is an external collaborator; it hands the core a
//! row as plain values. The password hash stays sealed inside its own type:
//! nothing outside this module can read the string back, only ask whether a
//! presented password matches it. Turning a row into the response payload
//! mints a fresh token for the account.

use vstd::prelude::*;

use crate::auth::bcrypt_matches;
use crate::auth::verify_password;
use crate::msg::UserJson;
use crate::msg::UserResponse;
use crate::token::TOKEN_LIFETIME_SECONDS;
use crate::token::TokenCodec;
use crate::token::spec_decode;

verus! {

/// A stored bcrypt hash. The string itself never leaves this module.
pub struct PasswordHash {
    hash: String,
}

impl PasswordHash {
    /// The characters of the stored hash string.
    pub closed spec fn spec_hash(&self) -> Seq<char> {
        self.hash@
    }

    pub fn new(hash: String) -> (p: PasswordHash)
        ensures
            p.spec_hash() == hash@,
    {
        PasswordHash { hash }
    }
}

/// One row of the user store.
pub struct User {
    pub id: i32,
    pub email: String,
    pub username: String,
    pub bio: Option<String>,
    pub image: Option<String>,
    pub hash: PasswordHash,
}

impl User {
    pub fn new(
        id: i32,
        email: String,
        username: String,
        bio: Option<String>,
        image: Option<String>,
        hash: String,
    ) -> (u: User)
        ensures
            u.id == id,
            u.email == email,
            u.username == username,
            u.bio == bio,
            u.image == image,
            u.hash.spec_hash() == hash@,
    {
        User { id, email, username, bio, image, hash: PasswordHash::new(hash) }
    }

    /// Does the presented password match the stored hash?
    pub fn compare_password(&self, plain_password: &String) -> (r: bool)
        ensures
            r == bcrypt_matches(plain_password@, self.hash.spec_hash()),
    {
        verify_password(plain_password, &self.hash.hash)
    }

    /// The success payload for this account, carrying a token minted at
    /// `now` for its id and username.
    pub fn to_user_response(self, codec: &TokenCodec, now: i64) -> (r: UserResponse)
        requires
            now + TOKEN_LIFETIME_SECONDS <= i64::MAX,
        ensures
            r.user.email == self.email,
            r.user.username == self.username,
            r.user.bio == self.bio,
            r.user.image == self.image,
            spec_decode(codec.spec_secret(), r.user.token@) == Some(
                (self.id as int, self.username@, (now + TOKEN_LIFETIME_SECONDS) as int),
            ),
    {
        let token = codec.mint(self.id, &self.username, now);
        UserResponse {
            user: UserJson {
                email: self.email,
                token,
                username: self.username,
                bio: self.bio,
                image: self.image,
            },
        }
    }
}

} // verus!

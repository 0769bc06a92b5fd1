//! The three roles an account can hold, and their names.

use vstd::prelude::*;
use crate::text::{chars_eq, chars_of, owned};

verus! {

/// The role of an account.
#[derive(Debug, Clone, Copy, PartialEq, Eq, Structural)]
pub enum UserRole {
    User,
    Provider,
    Admin,
}

/// The name under which a role is stored, sent and shown.
pub open spec fn role_name(r: UserRole) -> Seq<char> {
    match r {
        UserRole::User => seq!['u', 's', 'e', 'r'],
        UserRole::Provider => seq!['p', 'r', 'o', 'v', 'i', 'd', 'e', 'r'],
        UserRole::Admin => seq!['a', 'd', 'm', 'i', 'n'],
    }
}

/// The role whose name is `s`, if any.
pub open spec fn role_named(s: Seq<char>) -> Option<UserRole> {
    if s == role_name(UserRole::User) {
        Some(UserRole::User)
    } else if s == role_name(UserRole::Provider) {
        Some(UserRole::Provider)
    } else if s == role_name(UserRole::Admin) {
        Some(UserRole::Admin)
    } else {
        None
    }
}

impl UserRole {
    /// The role named by `s`; `None` for any other string.
    pub fn from_str(s: &str) -> (r: Option<UserRole>)
        ensures
            r == role_named(s@),
    {
        let c = chars_of(s);
        let user = vec!['u', 's', 'e', 'r'];
        let provider = vec!['p', 'r', 'o', 'v', 'i', 'd', 'e', 'r'];
        let admin = vec!['a', 'd', 'm', 'i', 'n'];
        assert(user@ == role_name(UserRole::User));
        assert(provider@ == role_name(UserRole::Provider));
        assert(admin@ == role_name(UserRole::Admin));
        if chars_eq(&c, &user) {
            Some(UserRole::User)
        } else if chars_eq(&c, &provider) {
            Some(UserRole::Provider)
        } else if chars_eq(&c, &admin) {
            Some(UserRole::Admin)
        } else {
            None
        }
    }

    /// The name of this role.
    pub fn as_string(&self) -> (s: String)
        ensures
            s@ == role_name(*self),
    {
        proof {
            reveal_strlit("user");
            reveal_strlit("provider");
            reveal_strlit("admin");
        }
        match self {
            UserRole::User => owned("user"),
            UserRole::Provider => owned("provider"),
            UserRole::Admin => owned("admin"),
        }
    }
}

/// Reading back a role's name gives the role: names are never ambiguous.
pub proof fn lemma_role_name_round_trip(r: UserRole)
    ensures
        role_named(role_name(r)) == Some(r),
{
    assert(role_name(UserRole::User) != role_name(UserRole::Provider)) by {
        assert(role_name(UserRole::User).len() != role_name(UserRole::Provider).len());
    }
    assert(role_name(UserRole::User) != role_name(UserRole::Admin)) by {
        assert(role_name(UserRole::User)[0] != role_name(UserRole::Admin)[0]);
    }
    assert(role_name(UserRole::Provider) != role_name(UserRole::Admin)) by {
        assert(role_name(UserRole::Provider).len() != role_name(UserRole::Admin).len());
    }
}

} // verus!

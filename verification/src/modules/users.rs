//! The users of the gateway's interface and what each may do.

use vstd::prelude::*;

verus! {

/// A user of the interface.
#[derive(Clone, Debug, Default)]
pub struct User {
    pub id: i32,
    pub given_name: Option<String>,
    pub family_name: Option<String>,
    pub additional_name: Option<String>,
    pub preferred_name: Option<String>,
    /// The login that the user signs in with.
    pub login: String,
    /// The team that the user belongs to.
    pub team_id: i32,
}

/// What is sent to create or change a user.
#[derive(Clone, Debug, Default)]
pub struct CreateUser {
    pub given_name: Option<String>,
    pub family_name: Option<String>,
    pub additional_name: Option<String>,
    pub preferred_name: Option<String>,
}

/// What an action is asked for.
#[derive(Clone, Debug)]
pub enum AuthorizableType {
    User(User),
}

/// The kind of access that an action needs.
#[derive(Clone, Copy, Debug, PartialEq, Eq, Structural)]
pub enum RBAC {
    Read,
    Write,
    Delete,
    Admin,
}

/// Why an authorization could not be decided.
#[derive(Clone, Copy, Debug, PartialEq, Eq, Structural)]
pub enum AuthorizationError {
    /// The question was put for something that cannot be looked up.
    InvalidAssertion,
}

/// The kinds of thing that access is granted to.
pub trait Authorizable {
    /// Whether `user` has the access `rbac` to `id`.
    spec fn permits(id: AuthorizableType, user: User, rbac: RBAC) -> Result<
        bool,
        AuthorizationError,
    >;

    /// Decides whether `user` has the access `rbac` to `id`.
    fn check_authorization(id: &AuthorizableType, user: &User, rbac: &RBAC) -> (r: Result<
        bool,
        AuthorizationError,
    >)
        ensures
            r == Self::permits(*id, *user, *rbac),
    ;
}

/// The points of the devices, which every user may see.
pub struct Point;

impl Authorizable for Point {
    open spec fn permits(id: AuthorizableType, user: User, rbac: RBAC) -> Result<
        bool,
        AuthorizationError,
    > {
        Ok(true)
    }

    fn check_authorization(id: &AuthorizableType, user: &User, rbac: &RBAC) -> (r: Result<
        bool,
        AuthorizationError,
    >) {
        Ok(true)
    }
}

impl Authorizable for User {
    /// Listing and creating users, which are asked for the user without
    /// number, is open to everyone. Nothing can be said of a single user as
    /// long as no user is stored.
    open spec fn permits(id: AuthorizableType, user: User, rbac: RBAC) -> Result<
        bool,
        AuthorizationError,
    > {
        match id {
            AuthorizableType::User(target) => if target.id == 0 && (rbac == RBAC::Read || rbac
                == RBAC::Write) {
                Ok(true)
            } else {
                Err(AuthorizationError::InvalidAssertion)
            },
        }
    }

    fn check_authorization(id: &AuthorizableType, user: &User, rbac: &RBAC) -> (r: Result<
        bool,
        AuthorizationError,
    >) {
        match id {
            AuthorizableType::User(target) => {
                let open_to_all: bool = match rbac {
                    RBAC::Read => true,
                    RBAC::Write => true,
                    _ => false,
                };
                if target.id == 0 && open_to_all {
                    Ok(true)
                } else {
                    Err(AuthorizationError::InvalidAssertion)
                }
            },
        }
    }
}

impl User {
    /// Whether this user has the access `rbac` to `id`, which is of the kind
    /// `T`.
    pub fn is_authorized<T: Authorizable>(&self, id: &AuthorizableType, rbac: &RBAC) -> (r: Result<
        bool,
        AuthorizationError,
    >)
        ensures
            r == T::permits(*id, *self, *rbac),
    {
        T::check_authorization(id, self, rbac)
    }
}

} // verus!

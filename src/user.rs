//! Stored credentials, the request bodies of register and login, and the
//! public projection of a user.
use vstd::prelude::*;

verus! {

/// A credential as the user store holds it.
#[derive(Clone, Debug)]
pub struct User {
    pub id: i32,
    pub uuid: String,
    pub username: String,
    pub password: String,
    pub email: String,
    pub is_admin: bool,
}

/// The body of a register request.
#[derive(Clone, Debug)]
pub struct UserRegister {
    pub username: String,
    pub password: String,
    pub email: String,
}

/// The body of a login request; `username` may also hold an email.
#[derive(Clone, Debug)]
pub struct UserLogin {
    pub username: String,
    pub password: String,
}

/// What callers may learn of a user: never the password hash.
#[derive(Clone, Debug)]
pub struct UserInformation {
    pub uuid: String,
    pub username: String,
    pub email: String,
    pub is_admin: bool,
}

/// The error text for a field name that a request body does not have.
pub open spec fn invalid_key(key: Seq<char>) -> Seq<char> {
    "Invalid key: "@ + key
}

fn invalid_key_message(key: &str) -> (r: String)
    ensures
        r@ == invalid_key(key@),
{
    "Invalid key: ".to_string().concat(key)
}

fn bool_text(b: bool) -> (r: String)
    ensures
        r@ == (if b { "true"@ } else { "false"@ }),
{
    if b {
        "true".to_string()
    } else {
        "false".to_string()
    }
}

impl UserRegister {
    /// A copy with the field named `key` set to `value`.
    pub fn set(&self, key: &str, value: String) -> (r: Result<UserRegister, String>)
        ensures
            key@ == "username"@ ==> (r matches Ok(u) && u.username@ == value@
                && u.password@ == self.password@ && u.email@ == self.email@),
            key@ == "password"@ ==> (r matches Ok(u) && u.username@ == self.username@
                && u.password@ == value@ && u.email@ == self.email@),
            key@ == "email"@ ==> (r matches Ok(u) && u.username@ == self.username@
                && u.password@ == self.password@ && u.email@ == value@),
            key@ != "username"@ && key@ != "password"@ && key@ != "email"@ ==> (r matches Err(m)
                && m@ == invalid_key(key@)),
    {
        let mut copy = UserRegister {
            username: self.username.clone(),
            password: self.password.clone(),
            email: self.email.clone(),
        };
        proof {
            reveal_strlit("username");
            reveal_strlit("password");
            reveal_strlit("email");
            assert("password"@[0] != "username"@[0]);
            assert("email"@.len() != "username"@.len());
            assert("email"@.len() != "password"@.len());
        }
        if crate::codec::str_eq(key, "username") {
            copy.username = value;
        } else if crate::codec::str_eq(key, "password") {
            copy.password = value;
        } else if crate::codec::str_eq(key, "email") {
            copy.email = value;
        } else {
            return Err(invalid_key_message(key));
        }
        Ok(copy)
    }

    /// The fields as text, in the form `UserRegister { username: .., .. }`.
    pub fn to_string(&self) -> (r: String)
        ensures
            r@ == "UserRegister { username: "@ + self.username@ + ", password: "@
                + self.password@ + ", email: "@ + self.email@ + " }"@,
    {
        "UserRegister { username: ".to_string().concat(self.username.as_str()).concat(
            ", password: ",
        ).concat(self.password.as_str()).concat(", email: ").concat(self.email.as_str()).concat(
            " }",
        )
    }
}

impl UserLogin {
    /// A copy with the field named `key` set to `value`.
    pub fn set(&self, key: &str, value: String) -> (r: Result<UserLogin, String>)
        ensures
            key@ == "username"@ ==> (r matches Ok(u) && u.username@ == value@
                && u.password@ == self.password@),
            key@ == "password"@ ==> (r matches Ok(u) && u.username@ == self.username@
                && u.password@ == value@),
            key@ != "username"@ && key@ != "password"@ ==> (r matches Err(m) && m@ == invalid_key(
                key@,
            )),
    {
        let mut copy = UserLogin {
            username: self.username.clone(),
            password: self.password.clone(),
        };
        proof {
            reveal_strlit("username");
            reveal_strlit("password");
            assert("password"@[0] != "username"@[0]);
        }
        if crate::codec::str_eq(key, "username") {
            copy.username = value;
        } else if crate::codec::str_eq(key, "password") {
            copy.password = value;
        } else {
            return Err(invalid_key_message(key));
        }
        Ok(copy)
    }

    /// The fields as text, in the form `UserLogin { username: .., password: .. }`.
    pub fn to_string(&self) -> (r: String)
        ensures
            r@ == "UserLogin { username: "@ + self.username@ + ", password: "@ + self.password@
                + " }"@,
    {
        "UserLogin { username: ".to_string().concat(self.username.as_str()).concat(
            ", password: ",
        ).concat(self.password.as_str()).concat(" }")
    }
}

impl UserInformation {
    /// The public projection of a stored user: everything but the id and the hash.
    pub fn from_user(user: User) -> (r: UserInformation)
        ensures
            r.uuid@ == user.uuid@,
            r.username@ == user.username@,
            r.email@ == user.email@,
            r.is_admin == user.is_admin,
    {
        UserInformation {
            uuid: user.uuid,
            username: user.username,
            email: user.email,
            is_admin: user.is_admin,
        }
    }

    /// Empty text fields, not an admin.
    pub fn default() -> (r: UserInformation)
        ensures
            r.uuid@.len() == 0,
            r.username@.len() == 0,
            r.email@.len() == 0,
            !r.is_admin,
    {
        UserInformation {
            uuid: String::new(),
            username: String::new(),
            email: String::new(),
            is_admin: false,
        }
    }

    /// The fields as text, in the form `UserInformation { uuid: .., .. }`.
    pub fn to_string(&self) -> (r: String)
        ensures
            r@ == "UserInformation { uuid: "@ + self.uuid@ + ", username: "@ + self.username@
                + ", email: "@ + self.email@ + ", is_admin: "@ + (if self.is_admin {
                "true"@
            } else {
                "false"@
            }) + " }"@,
    {
        let flag = bool_text(self.is_admin);
        "UserInformation { uuid: ".to_string().concat(self.uuid.as_str()).concat(
            ", username: ",
        ).concat(self.username.as_str()).concat(", email: ").concat(self.email.as_str()).concat(
            ", is_admin: ",
        ).concat(flag.as_str()).concat(" }")
    }
}

impl PartialEq for UserInformation {
    fn eq(&self, other: &UserInformation) -> (r: bool) {
        self.is_admin == other.is_admin && crate::codec::str_eq(self.uuid.as_str(), other.uuid.as_str())
            && crate::codec::str_eq(self.username.as_str(), other.username.as_str())
            && crate::codec::str_eq(self.email.as_str(), other.email.as_str())
    }
}

impl vstd::std_specs::cmp::PartialEqSpecImpl for UserInformation {
    open spec fn obeys_eq_spec() -> bool {
        true
    }

    open spec fn eq_spec(&self, other: &UserInformation) -> bool {
        &&& self.uuid@ == other.uuid@
        &&& self.username@ == other.username@
        &&& self.email@ == other.email@
        &&& self.is_admin == other.is_admin
    }
}

} // verus!

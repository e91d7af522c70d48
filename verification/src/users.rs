//! Users of the tracker.

use vstd::prelude::*;
use crate::client::{fetched, only, only_one, outcome, Client};
use crate::error::Error;
use crate::json::{document, lemma_view_of_parts, members_view, Json, JsonTree};
use crate::text::percent_encoded;
use crate::wire::{entry, lemma_required_at, read_required, required, Wire};

verus! {

/// Represents an user.
#[derive(Clone, Debug, PartialEq, Eq)]
pub struct User {
    /// The email of the user.
    pub email: String,
    /// To check of the user is allowed to login.
    pub enable_login: bool,
    /// The full name of the user.
    pub full_name: String,
    /// To check if the user has superuser privileges.
    pub is_superuser: bool,
    /// The `openid` string
    pub openid: String,
    /// The ID of the user.
    pub id: i32,
}

/// The mathematical value of a [`User`].
pub struct UserView {
    pub email: Seq<char>,
    pub enable_login: bool,
    pub full_name: Seq<char>,
    pub is_superuser: bool,
    pub openid: Seq<char>,
    pub id: i32,
}

impl DeepView for User {
    type V = UserView;

    open spec fn deep_view(&self) -> UserView {
        UserView {
            email: self.email@,
            enable_login: self.enable_login,
            full_name: self.full_name@,
            is_superuser: self.is_superuser,
            openid: self.openid@,
            id: self.id,
        }
    }
}

/// The lengths of the names of the members, and that no two names of one
/// length are the same.
proof fn lemma_user_names()
    ensures
        "email"@.len() == 5,
        "enable_login"@.len() == 12,
        "full_name"@.len() == 9,
        "is_superuser"@.len() == 12,
        "openid"@.len() == 6,
        "id"@.len() == 2,
        "enable_login"@ != "is_superuser"@,
{
    reveal_strlit("email");
    reveal_strlit("enable_login");
    reveal_strlit("full_name");
    reveal_strlit("is_superuser");
    reveal_strlit("openid");
    reveal_strlit("id");
    assert("enable_login"@[0] != "is_superuser"@[0]);
}

/// An object with the members `email`, `enable_login`, `full_name`,
/// `is_superuser`, `openid` and `id`; other members are passed over.
impl Wire for User {
    open spec fn decoded(tree: JsonTree) -> Option<UserView> {
        match tree {
            JsonTree::Object(members) => {
                let email = required::<String>(members, "email"@);
                let enable_login = required::<bool>(members, "enable_login"@);
                let full_name = required::<String>(members, "full_name"@);
                let is_superuser = required::<bool>(members, "is_superuser"@);
                let openid = required::<String>(members, "openid"@);
                let id = required::<i32>(members, "id"@);
                if email is Some && enable_login is Some && full_name is Some
                    && is_superuser is Some && openid is Some && id is Some {
                    Some(
                        UserView {
                            email: email->Some_0,
                            enable_login: enable_login->Some_0,
                            full_name: full_name->Some_0,
                            is_superuser: is_superuser->Some_0,
                            openid: openid->Some_0,
                            id: id->Some_0,
                        },
                    )
                } else {
                    None
                }
            },
            _ => None,
        }
    }

    open spec fn encoded(value: UserView) -> JsonTree {
        JsonTree::Object(
            seq![
                ("email"@, String::encoded(value.email)),
                ("enable_login"@, bool::encoded(value.enable_login)),
                ("full_name"@, String::encoded(value.full_name)),
                ("is_superuser"@, bool::encoded(value.is_superuser)),
                ("openid"@, String::encoded(value.openid)),
                ("id"@, i32::encoded(value.id)),
            ],
        )
    }

    open spec fn sound(value: UserView) -> bool {
        true
    }

    fn decode(json: &Json) -> (r: Option<User>) {
        proof {
            lemma_view_of_parts(*json);
        }
        match json {
            Json::Object(members) => {
                let email = read_required::<String>(members, "email")?;
                let enable_login = read_required::<bool>(members, "enable_login")?;
                let full_name = read_required::<String>(members, "full_name")?;
                let is_superuser = read_required::<bool>(members, "is_superuser")?;
                let openid = read_required::<String>(members, "openid")?;
                let id = read_required::<i32>(members, "id")?;
                Some(
                    User {
                        email,
                        enable_login,
                        full_name,
                        is_superuser,
                        openid,
                        id,
                    },
                )
            },
            _ => None,
        }
    }

    fn encode(&self) -> (json: Json) {
        let mut members: Vec<(String, Json)> = Vec::new();
        members.push(entry("email", self.email.encode()));
        members.push(entry("enable_login", self.enable_login.encode()));
        members.push(entry("full_name", self.full_name.encode()));
        members.push(entry("is_superuser", self.is_superuser.encode()));
        members.push(entry("openid", self.openid.encode()));
        members.push(entry("id", self.id.encode()));
        let json = Json::Object(members);
        proof {
            lemma_view_of_parts(json);
            assert(members_view(members@) =~= Self::encoded(self.deep_view())->Object_0);
        }
        json
    }

    proof fn decoded_is_sound(tree: JsonTree) {
    }

    proof fn never_null(value: UserView) {
    }

    proof fn round_trip(value: UserView) {
        let members = Self::encoded(value)->Object_0;
        lemma_user_names();
        lemma_required_at::<String>(members, 0, "email"@, value.email);
        lemma_required_at::<bool>(members, 1, "enable_login"@, value.enable_login);
        lemma_required_at::<String>(members, 2, "full_name"@, value.full_name);
        lemma_required_at::<bool>(members, 3, "is_superuser"@, value.is_superuser);
        lemma_required_at::<String>(members, 4, "openid"@, value.openid);
        lemma_required_at::<i32>(members, 5, "id"@, value.id);
    }
}

impl Default for User {
    /// The user with empty texts, no rights and the ID 0.
    fn default() -> (r: User)
        ensures
            r.deep_view() == (UserView {
                email: Seq::empty(),
                enable_login: false,
                full_name: Seq::empty(),
                is_superuser: false,
                openid: Seq::empty(),
                id: 0,
            }),
    {
        User {
            email: String::new(),
            enable_login: false,
            full_name: String::new(),
            is_superuser: false,
            openid: String::new(),
            id: 0,
        }
    }
}

impl Client {
    /// The address that searches the users for a text.
    pub fn search_users_url(&self, s: &str) -> (url: String)
        ensures
            url@ == self@ + "/users/search?q="@ + percent_encoded(s@),
    {
        self.address_of_text("/users/search?q=", s)
    }

    /// Reads the reply to a search for users.
    pub fn search_users(&self, reply: &str) -> (r: Result<Vec<User>, Error>)
        ensures
            outcome(r) == fetched::<Vec<User>>(document(reply@)),
    {
        self.fetch_url::<Vec<User>>(reply)
    }

    /// The address that asks for the user with an email.
    pub fn get_user_by_email_url(&self, email: &str) -> (url: String)
        ensures
            url@ == self@ + "/users?email="@ + percent_encoded(email@),
    {
        self.address_of_text("/users?email=", email)
    }

    /// Reads the reply to the query for the user with an email: the user
    /// where the reply lists exactly one, an error where it lists none or
    /// several.
    pub fn get_user_by_email(&self, reply: &str) -> (r: Result<User, Error>)
        ensures
            outcome(r) == only(fetched::<Vec<User>>(document(reply@))),
    {
        match self.fetch_url::<Vec<User>>(reply) {
            Ok(users) => only_one(users),
            Err(e) => Err(e),
        }
    }
}

} // verus!

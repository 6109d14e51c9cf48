//! The records the service keeps about its users, and the checks that decide
//! what a signed-in user may touch.

use vstd::prelude::*;
use vstd::std_specs::cmp::PartialEqSpecImpl;

verus! {

/// What a caller outside the service is told of a failure: never the reason
/// itself.
#[derive(Debug, Clone, Copy, PartialEq, Eq, Structural)]
pub enum Signal {
    /// The request is not let in.
    Unauthorized,
    /// There is nothing there.
    NotFound,
    /// The service failed.
    InternalError,
}

/// The key of a stored record, held as the text under which the store files it.
#[derive(Debug)]
pub struct IntelliThing {
    pub id: String,
}

impl View for IntelliThing {
    type V = Seq<char>;

    open spec fn view(&self) -> Seq<char> {
        self.id@
    }
}

impl Clone for IntelliThing {
    fn clone(&self) -> (r: Self)
        ensures
            r@ == self@,
    {
        IntelliThing { id: self.id.clone() }
    }
}

impl PartialEq for IntelliThing {
    fn eq(&self, other: &Self) -> (r: bool) {
        other.id == self.id
    }
}

impl PartialEqSpecImpl for IntelliThing {
    open spec fn obeys_eq_spec() -> bool {
        true
    }

    open spec fn eq_spec(&self, other: &Self) -> bool {
        other@ == self@
    }
}

impl IntelliThing {
    /// The key with the given text.
    pub fn new(id: String) -> (r: Self)
        ensures
            r@ == id@,
    {
        IntelliThing { id }
    }

    /// The key as text, the form in which it travels inside a token.
    pub fn to_string(&self) -> (text: String)
        ensures
            text@ == self@,
    {
        self.id.clone()
    }

    /// The text that stands for a key that may be missing: the key's own
    /// text, or the empty text for none.
    pub fn text_of(id: &Option<IntelliThing>) -> (text: String)
        ensures
            text@ == match id {
                Some(id) => id@,
                None => Seq::<char>::empty(),
            },
    {
        match id {
            Some(id) => id.to_string(),
            None => String::new(),
        }
    }
}

/// A person known to the service. The service reads these records and never
/// writes them behind the store's back.
#[derive(Debug)]
pub struct User {
    pub id: IntelliThing,
    pub admin: bool,
    pub name: String,
    pub email: String,
    pub password: String,
    pub firstname: Option<String>,
    pub lastname: Option<String>,
}

/// What a [`User`] holds, as mathematical values.
pub struct UserView {
    pub id: Seq<char>,
    pub admin: bool,
    pub name: Seq<char>,
    pub email: Seq<char>,
    pub password: Seq<char>,
    pub firstname: Option<Seq<char>>,
    pub lastname: Option<Seq<char>>,
}

impl View for User {
    type V = UserView;

    open spec fn view(&self) -> UserView {
        UserView {
            id: self.id@,
            admin: self.admin,
            name: self.name@,
            email: self.email@,
            password: self.password@,
            firstname: self.firstname.deep_view(),
            lastname: self.lastname.deep_view(),
        }
    }
}

impl UserView {
    /// Whether `target` names this user: by key, by display name or by email.
    /// The three are tried in that order and any one suffices, so a target
    /// that happens to equal another user's name still matches that user.
    pub open spec fn is_self(self, target: Seq<char>) -> bool {
        self.id == target || self.name == target || self.email == target
    }

    /// Whether this user may act on the record that `target` names: an
    /// administrator on any, everyone else on their own.
    pub open spec fn may_act_on(self, target: Seq<char>) -> bool {
        self.admin || self.is_self(target)
    }

    /// This user after the fields that `patch` carries have replaced its own.
    /// The key is never replaced.
    pub open spec fn patched(self, patch: BodyUserView) -> UserView {
        UserView {
            id: self.id,
            admin: if let Some(admin) = patch.admin { admin } else { self.admin },
            name: if let Some(name) = patch.name { name } else { self.name },
            email: if let Some(email) = patch.email { email } else { self.email },
            password: if let Some(password) = patch.password { password } else { self.password },
            firstname: if patch.firstname is Some { patch.firstname } else { self.firstname },
            lastname: if patch.lastname is Some { patch.lastname } else { self.lastname },
        }
    }

    /// The patch that carries every field of this user.
    pub open spec fn as_patch(self) -> BodyUserView {
        BodyUserView {
            id: Some(self.id),
            name: Some(self.name),
            email: Some(self.email),
            admin: Some(self.admin),
            password: Some(self.password),
            firstname: self.firstname,
            lastname: self.lastname,
        }
    }
}

fn clone_text(text: &Option<String>) -> (r: Option<String>)
    ensures
        r.deep_view() == text.deep_view(),
{
    match text {
        Some(s) => Some(s.clone()),
        None => None,
    }
}

impl Clone for User {
    fn clone(&self) -> (r: Self)
        ensures
            r@ == self@,
    {
        User {
            id: self.id.clone(),
            admin: self.admin,
            name: self.name.clone(),
            email: self.email.clone(),
            password: self.password.clone(),
            firstname: clone_text(&self.firstname),
            lastname: clone_text(&self.lastname),
        }
    }
}

impl User {
    /// Whether `password` is this user's password.
    pub fn validate_password(&self, password: String) -> (r: bool)
        ensures
            r == (self@.password == password@),
    {
        self.password == password
    }

    /// Whether `to_compare` names this user: by key, by display name or by
    /// email.
    pub fn compare(&self, to_compare: &String) -> (r: bool)
        ensures
            r == self@.is_self(to_compare@),
    {
        self.id.id == *to_compare || self.name == *to_compare || self.email == *to_compare
    }

    /// Whether this user is an administrator.
    pub fn is_admin(&self) -> (r: bool)
        ensures
            r == self@.admin,
    {
        self.admin
    }

    /// Whether this user may act on the record that `target` names.
    pub fn may_act_on(&self, target: &String) -> (r: bool)
        ensures
            r == self@.may_act_on(target@),
    {
        self.admin || self.compare(target)
    }

    /// Replaces each field that `patch` carries; the others, and the key,
    /// stay as they are.
    pub fn apply(&mut self, patch: &BodyUser)
        ensures
            final(self)@ == old(self)@.patched(patch@),
    {
        if let Some(name) = &patch.name {
            self.name = name.clone();
        }
        if let Some(admin) = patch.admin {
            self.admin = admin;
        }
        if let Some(email) = &patch.email {
            self.email = email.clone();
        }
        if let Some(password) = &patch.password {
            self.password = password.clone();
        }
        if let Some(firstname) = &patch.firstname {
            self.firstname = Some(firstname.clone());
        }
        if let Some(lastname) = &patch.lastname {
            self.lastname = Some(lastname.clone());
        }
    }
}

/// A partial user record: the fields a request wants to set.
#[derive(Debug)]
pub struct BodyUser {
    pub id: Option<IntelliThing>,
    pub name: Option<String>,
    pub email: Option<String>,
    pub admin: Option<bool>,
    pub password: Option<String>,
    pub firstname: Option<String>,
    pub lastname: Option<String>,
}

/// What a [`BodyUser`] holds, as mathematical values.
pub struct BodyUserView {
    pub id: Option<Seq<char>>,
    pub name: Option<Seq<char>>,
    pub email: Option<Seq<char>>,
    pub admin: Option<bool>,
    pub password: Option<Seq<char>>,
    pub firstname: Option<Seq<char>>,
    pub lastname: Option<Seq<char>>,
}

impl View for BodyUser {
    type V = BodyUserView;

    open spec fn view(&self) -> BodyUserView {
        BodyUserView {
            id: match self.id {
                Some(id) => Some(id@),
                None => None,
            },
            name: self.name.deep_view(),
            email: self.email.deep_view(),
            admin: self.admin,
            password: self.password.deep_view(),
            firstname: self.firstname.deep_view(),
            lastname: self.lastname.deep_view(),
        }
    }
}

impl BodyUser {
    /// The patch that writes `user` back whole: every field it has, set.
    pub fn from_user(user: &User) -> (r: Self)
        ensures
            r@ == user@.as_patch(),
    {
        BodyUser {
            id: Some(user.id.clone()),
            name: Some(user.name.clone()),
            email: Some(user.email.clone()),
            admin: Some(user.admin),
            password: Some(user.password.clone()),
            firstname: clone_text(&user.firstname),
            lastname: clone_text(&user.lastname),
        }
    }
}

/// Applying the patch made from a user to that same user changes nothing.
pub proof fn lemma_own_patch_is_identity(user: UserView)
    ensures
        user.patched(user.as_patch()) == user,
{
}

/// The two checks look at nothing but the user's key, name, email and admin
/// flag and the target: users that agree on those get the same answers.
pub proof fn lemma_checks_read_identity_only(a: UserView, b: UserView, target: Seq<char>)
    requires
        a.id == b.id,
        a.name == b.name,
        a.email == b.email,
        a.admin == b.admin,
    ensures
        a.is_self(target) == b.is_self(target),
        a.may_act_on(target) == b.may_act_on(target),
{
}

/// A user is always recognised by their own key, name and email.
pub proof fn lemma_is_self_of_own_names(user: UserView)
    ensures
        user.is_self(user.id),
        user.is_self(user.name),
        user.is_self(user.email),
{
}

} // verus!

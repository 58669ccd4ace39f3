//! The accounts that the engine is asked to create, remove or change.

use vstd::prelude::*;

verus! {

/// One line of the directive file: an account to create.
#[derive(Clone, Debug, PartialEq, Eq)]
pub struct AccountDirective {
    pub name: String,
    pub password: String,
    pub uid: u32,
    pub gid: u32,
}

/// What an [`AccountDirective`] holds, as mathematical values.
pub struct AccountDirectiveView {
    pub name: Seq<char>,
    pub password: Seq<char>,
    pub uid: u32,
    pub gid: u32,
}

impl View for AccountDirective {
    type V = AccountDirectiveView;

    open spec fn view(&self) -> AccountDirectiveView {
        AccountDirectiveView {
            name: self.name@,
            password: self.password@,
            uid: self.uid,
            gid: self.gid,
        }
    }
}

impl AccountDirectiveView {
    /// The identity of the account that the directive describes.
    pub open spec fn identity(self) -> AccountIdentityView {
        AccountIdentityView { name: self.name, uid: self.uid, gid: self.gid }
    }
}

/// The name and the two numbers by which an account is known.
#[derive(Clone, Debug, PartialEq, Eq)]
pub struct AccountIdentity {
    pub name: String,
    pub uid: u32,
    pub gid: u32,
}

/// What an [`AccountIdentity`] holds, as mathematical values.
pub struct AccountIdentityView {
    pub name: Seq<char>,
    pub uid: u32,
    pub gid: u32,
}

impl View for AccountIdentity {
    type V = AccountIdentityView;

    open spec fn view(&self) -> AccountIdentityView {
        AccountIdentityView { name: self.name@, uid: self.uid, gid: self.gid }
    }
}

/// The parts of an identity that a modification replaces; `None` leaves a part as it is.
#[derive(Clone, Debug, PartialEq, Eq)]
pub struct PartialAccountIdentity {
    pub name: Option<String>,
    pub uid: Option<u32>,
    pub gid: Option<u32>,
}

/// What a [`PartialAccountIdentity`] holds, as mathematical values.
pub struct PartialAccountIdentityView {
    pub name: Option<Seq<char>>,
    pub uid: Option<u32>,
    pub gid: Option<u32>,
}

/// The text of an optional string.
pub open spec fn text_of(s: Option<String>) -> Option<Seq<char>> {
    match s {
        Some(s) => Some(s@),
        None => None,
    }
}

impl View for PartialAccountIdentity {
    type V = PartialAccountIdentityView;

    open spec fn view(&self) -> PartialAccountIdentityView {
        PartialAccountIdentityView { name: text_of(self.name), uid: self.uid, gid: self.gid }
    }
}

impl PartialAccountIdentityView {
    /// The identity that `old` becomes when the parts given here replace its own.
    pub open spec fn applied_to(self, old: AccountIdentityView) -> AccountIdentityView {
        AccountIdentityView {
            name: match self.name {
                Some(name) => name,
                None => old.name,
            },
            uid: match self.uid {
                Some(uid) => uid,
                None => old.uid,
            },
            gid: match self.gid {
                Some(gid) => gid,
                None => old.gid,
            },
        }
    }
}

impl PartialAccountIdentity {
    /// The identity that `old` has after the modification.
    pub fn applied_to(self, old: AccountIdentity) -> (new: AccountIdentity)
        ensures
            new@ == self@.applied_to(old@),
    {
        AccountIdentity {
            name: match self.name {
                Some(name) => name,
                None => old.name,
            },
            uid: match self.uid {
                Some(uid) => uid,
                None => old.uid,
            },
            gid: match self.gid {
                Some(gid) => gid,
                None => old.gid,
            },
        }
    }
}

/// A change to one account.
#[derive(Clone, Debug, PartialEq, Eq)]
pub enum AccountMutationRequest {
    Create { name: String, uid: u32, gid: u32, password: String },
    Delete { name: String, uid: u32, gid: u32 },
    Modify { old: AccountIdentity, new: PartialAccountIdentity, new_password: Option<String> },
}

} // verus!

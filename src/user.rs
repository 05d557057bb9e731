//! The identity that a successful resolution hands to the rest of the request.

use vstd::prelude::*;

verus! {

/// A resolved caller.
#[derive(Clone, Debug, PartialEq, Eq)]
pub struct OIDCUser {
    pub name: Option<String>,
    pub preferred_username: String,
    pub groups: Vec<String>,
    pub drink_balance: Option<i64>,
}

/// An identity as plain values.
pub struct UserView {
    pub name: Option<Seq<char>>,
    pub preferred_username: Seq<char>,
    pub groups: Seq<Seq<char>>,
    pub drink_balance: Option<i64>,
}

impl View for OIDCUser {
    type V = UserView;

    open spec fn view(&self) -> UserView {
        UserView {
            name: match self.name {
                Some(n) => Some(n@),
                None => None,
            },
            preferred_username: self.preferred_username@,
            groups: self.groups@.map_values(|g: String| g@),
            drink_balance: self.drink_balance,
        }
    }
}

/// The principal of callers that present the shared machine secret.
pub open spec fn machine_user() -> UserView {
    UserView {
        name: Some("Drink Machine"@),
        preferred_username: "drink_machine"@,
        groups: seq!["drink"@],
        drink_balance: Some(0),
    }
}

impl OIDCUser {
    /// The fixed identity of the drink machine.
    pub fn machine() -> (r: OIDCUser)
        ensures
            r@ == machine_user(),
    {
        let groups: Vec<String> = vec!["drink".to_owned()];
        let r = OIDCUser {
            name: Some("Drink Machine".to_owned()),
            preferred_username: "drink_machine".to_owned(),
            groups,
            drink_balance: Some(0),
        };
        assert(r@.groups =~= seq!["drink"@]);
        r
    }
}

} // verus!

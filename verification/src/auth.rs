//! The login methods of a homeserver, as read from the flows it advertises.

use vstd::prelude::*;
use vstd::string::*;

verus! {

/// One way of logging in that a homeserver advertises.
#[derive(Clone, Copy, Debug, PartialEq, Eq)]
pub enum LoginFlow {
    /// Login with a username and a password.
    Password,
    /// Single sign-on, with the number of identity providers that the
    /// homeserver lists for it.
    Sso { identity_providers: usize },
    /// Any other flow; none of them is offered to the user.
    Other,
}

impl LoginFlow {
    /// Single sign-on that goes straight to the homeserver, with no identity
    /// provider to choose.
    pub open spec fn is_direct_sso(self) -> bool {
        self matches LoginFlow::Sso { identity_providers } && identity_providers == 0
    }
}

/// The login methods that a homeserver offers.
#[derive(Clone, Copy, Debug, PartialEq, Eq)]
pub struct AuthTypes {
    /// Password login is offered.
    pub password: bool,
    /// Single sign-on is offered with no identity provider to choose.
    pub sso: bool,
}

/// Some flow of `flows` is a password flow.
pub open spec fn offers_password(flows: Seq<LoginFlow>) -> bool {
    exists|i: int| 0 <= i < flows.len() && flows[i] is Password
}

/// Some flow of `flows` is single sign-on without identity providers.
pub open spec fn offers_sso(flows: Seq<LoginFlow>) -> bool {
    exists|i: int| 0 <= i < flows.len() && #[trigger] flows[i].is_direct_sso()
}

/// The login methods that a list of flows amounts to.
pub open spec fn auth_types_of(flows: Seq<LoginFlow>) -> AuthTypes {
    AuthTypes { password: offers_password(flows), sso: offers_sso(flows) }
}

/// What the user is told when the homeserver's flows could not be fetched.
pub open spec fn login_types_failure() -> Seq<char> {
    "Could not retrieve login methods from homeserver. \n\nCheck the spelling of the homeserver and your internet connection."@
}

impl AuthTypes {
    /// Scans the advertised flows for the methods this front end offers.
    pub fn from_flows(flows: &Vec<LoginFlow>) -> (auth_types: AuthTypes)
        ensures
            auth_types == auth_types_of(flows@),
    {
        let mut auth_types = AuthTypes { password: false, sso: false };
        let mut i: usize = 0;
        while i < flows.len()
            invariant
                i <= flows.len(),
                auth_types == auth_types_of(flows@.take(i as int)),
            decreases flows.len() - i,
        {
            let ghost seen = flows@.take(i as int);
            let ghost next = flows@.take(i + 1);
            proof {
                assert(next.drop_last() =~= seen);
                assert(next.last() == flows@[i as int]);
                lemma_auth_types_push(next);
            }
            match flows[i] {
                LoginFlow::Password => {
                    auth_types.password = true;
                },
                LoginFlow::Sso { identity_providers } => {
                    if identity_providers == 0 {
                        auth_types.sso = true;
                    }
                },
                LoginFlow::Other => {},
            }
            i += 1;
        }
        proof {
            assert(flows@.take(flows.len() as int) =~= flows@);
        }
        auth_types
    }
}

/// Adding one flow at the end adds what that flow offers, and nothing else.
proof fn lemma_auth_types_push(flows: Seq<LoginFlow>)
    requires
        flows.len() > 0,
    ensures
        offers_password(flows) == (offers_password(flows.drop_last()) || flows.last() is Password),
        offers_sso(flows) == (offers_sso(flows.drop_last()) || flows.last().is_direct_sso()),
{
    let front = flows.drop_last();
    let n = flows.len() - 1;
    if offers_password(front) {
        let i = choose|i: int| 0 <= i < front.len() && front[i] is Password;
        assert(flows[i] is Password);
    }
    if flows.last() is Password {
        assert(flows[n] is Password);
    }
    if offers_password(flows) {
        let i = choose|i: int| 0 <= i < flows.len() && flows[i] is Password;
        if i < n {
            assert(front[i] is Password);
        }
    }
    if offers_sso(front) {
        let i = choose|i: int| 0 <= i < front.len() && #[trigger] front[i].is_direct_sso();
        assert(flows[i].is_direct_sso());
    }
    if flows.last().is_direct_sso() {
        assert(flows[n].is_direct_sso());
    }
    if offers_sso(flows) {
        let i = choose|i: int| 0 <= i < flows.len() && #[trigger] flows[i].is_direct_sso();
        if i < n {
            assert(front[i].is_direct_sso());
        }
    }
}

/// Turns the outcome of the flow query into what the login form is told:
/// the methods on offer, or the text that explains the failure.
pub fn get_auth_types<E>(login_types: Result<Vec<LoginFlow>, E>) -> (result: Result<
    AuthTypes,
    String,
>)
    ensures
        match login_types {
            Ok(flows) => result == Ok::<AuthTypes, String>(auth_types_of(flows@)),
            Err(_) => result matches Err(text) && text@ == login_types_failure(),
        },
{
    match login_types {
        Ok(flows) => Ok(AuthTypes::from_flows(&flows)),
        Err(_) => Err(
            "Could not retrieve login methods from homeserver. \n\nCheck the spelling of the homeserver and your internet connection.".to_owned(),
        ),
    }
}

} // verus!

use matrix_login::auth::{get_auth_types, AuthTypes, LoginFlow};

const QUERY_FAILURE: &str = "Could not retrieve login methods from homeserver. \n\nCheck the spelling of the homeserver and your internet connection.";

fn scan(flows: Vec<LoginFlow>) -> AuthTypes {
    AuthTypes::from_flows(&flows)
}

#[test]
fn password_flow_offers_password_only() {
    assert_eq!(scan(vec![LoginFlow::Password]), AuthTypes { password: true, sso: false });
}

#[test]
fn password_and_direct_sso_offer_both() {
    let flows = vec![LoginFlow::Password, LoginFlow::Sso { identity_providers: 0 }];
    assert_eq!(scan(flows), AuthTypes { password: true, sso: true });
}

#[test]
fn sso_with_identity_providers_offers_nothing() {
    let flows = vec![LoginFlow::Sso { identity_providers: 2 }];
    assert_eq!(scan(flows), AuthTypes { password: false, sso: false });
}

#[test]
fn no_flows_offer_nothing() {
    assert_eq!(scan(Vec::new()), AuthTypes { password: false, sso: false });
}

#[test]
fn other_flows_offer_nothing() {
    let flows = vec![LoginFlow::Other, LoginFlow::Other];
    assert_eq!(scan(flows), AuthTypes { password: false, sso: false });
}

#[test]
fn direct_sso_alone_offers_sso_only() {
    let flows = vec![LoginFlow::Sso { identity_providers: 0 }];
    assert_eq!(scan(flows), AuthTypes { password: false, sso: true });
}

#[test]
fn one_direct_sso_among_others_is_enough() {
    let flows = vec![
        LoginFlow::Sso { identity_providers: 3 },
        LoginFlow::Other,
        LoginFlow::Sso { identity_providers: 0 },
        LoginFlow::Sso { identity_providers: 1 },
    ];
    assert_eq!(scan(flows), AuthTypes { password: false, sso: true });
}

#[test]
fn the_order_of_flows_does_not_matter() {
    let one = vec![LoginFlow::Sso { identity_providers: 0 }, LoginFlow::Other, LoginFlow::Password];
    let other = vec![LoginFlow::Password, LoginFlow::Sso { identity_providers: 0 }, LoginFlow::Other];
    assert_eq!(scan(one), scan(other));
}

#[test]
fn repeated_flows_count_once() {
    let flows = vec![LoginFlow::Password, LoginFlow::Password, LoginFlow::Password];
    assert_eq!(scan(flows), AuthTypes { password: true, sso: false });
}

#[test]
fn answered_query_gives_the_methods() {
    let answer: Result<Vec<LoginFlow>, ()> = Ok(vec![LoginFlow::Password]);
    assert_eq!(get_auth_types(answer), Ok(AuthTypes { password: true, sso: false }));
}

#[test]
fn answered_query_without_flows_gives_no_method() {
    let answer: Result<Vec<LoginFlow>, ()> = Ok(Vec::new());
    assert_eq!(get_auth_types(answer), Ok(AuthTypes { password: false, sso: false }));
}

#[test]
fn failed_query_gives_the_fixed_explanation() {
    let answer: Result<Vec<LoginFlow>, &str> = Err("connection refused");
    assert_eq!(get_auth_types(answer), Err(QUERY_FAILURE.to_string()));
}

#[test]
fn failed_query_explanation_ignores_the_reason() {
    let one: Result<Vec<LoginFlow>, u32> = Err(404);
    let other: Result<Vec<LoginFlow>, u32> = Err(500);
    assert_eq!(get_auth_types(one), get_auth_types(other));
}

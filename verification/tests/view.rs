use matrix_login::auth::AuthTypes;
use matrix_login::login::{App, HomeserverState};
use matrix_login::ui::Item;

fn form(homeserver_state: HomeserverState) -> App {
    App {
        hostname: "example.org".to_string(),
        username: "alice".to_string(),
        password: "secret".to_string(),
        password_visible: false,
        homeserver_state,
    }
}

fn header(submit_enabled: bool) -> Vec<Item> {
    vec![
        Item::Title,
        Item::Hostname { hostname: "example.org".to_string(), submit_enabled },
        Item::Rule,
    ]
}

fn password_section(secure: bool) -> Vec<Item> {
    vec![
        Item::PasswordHeading,
        Item::Username { username: "alice".to_string() },
        Item::Password { password: "secret".to_string(), secure },
        Item::LoginButton,
    ]
}

#[test]
fn idle_form_shows_the_header_alone() {
    assert_eq!(form(HomeserverState::Idle).view(), header(true));
}

#[test]
fn connecting_form_shows_its_notice_and_disables_submit() {
    let mut expected = header(false);
    expected.push(Item::Connecting);
    assert_eq!(form(HomeserverState::Connecting).view(), expected);
}

#[test]
fn querying_form_shows_its_notice_and_disables_submit() {
    let mut expected = header(false);
    expected.push(Item::GettingAuthTypes);
    assert_eq!(form(HomeserverState::GettingAuthTypes).view(), expected);
}

#[test]
fn failed_form_shows_the_explanation_and_enables_submit() {
    let mut expected = header(true);
    expected.push(Item::Error("no answer".to_string()));
    assert_eq!(form(HomeserverState::Error("no answer".to_string())).view(), expected);
}

#[test]
fn no_method_shows_the_header_alone() {
    let state = HomeserverState::AuthTypes(AuthTypes { password: false, sso: false });
    assert_eq!(form(state).view(), header(true));
}

#[test]
fn password_method_shows_the_password_section() {
    let state = HomeserverState::AuthTypes(AuthTypes { password: true, sso: false });
    let mut expected = header(true);
    expected.extend(password_section(true));
    assert_eq!(form(state).view(), expected);
}

#[test]
fn sso_method_shows_the_sso_section() {
    let state = HomeserverState::AuthTypes(AuthTypes { password: false, sso: true });
    let mut expected = header(true);
    expected.extend(vec![Item::SsoHeading, Item::SsoButton]);
    assert_eq!(form(state).view(), expected);
}

#[test]
fn both_methods_are_parted_by_a_rule() {
    let state = HomeserverState::AuthTypes(AuthTypes { password: true, sso: true });
    let mut expected = header(true);
    expected.extend(password_section(true));
    expected.extend(vec![Item::Rule, Item::SsoHeading, Item::SsoButton]);
    assert_eq!(form(state).view(), expected);
}

#[test]
fn visible_password_is_not_masked() {
    let mut app = form(HomeserverState::AuthTypes(AuthTypes { password: true, sso: false }));
    app.password_visible = true;
    let mut expected = header(true);
    expected.extend(password_section(false));
    assert_eq!(app.view(), expected);
}

#[test]
fn view_leaves_the_form_as_it_is() {
    let app = form(HomeserverState::AuthTypes(AuthTypes { password: true, sso: true }));
    let before = app.clone();
    let first = app.view();
    let second = app.view();
    assert_eq!(first, second);
    assert_eq!(app, before);
}

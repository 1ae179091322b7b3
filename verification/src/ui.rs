//! What a screen shows, as plain data for a renderer to draw.

use vstd::prelude::*;

verus! {

/// One element of a screen, in the order in which a screen lists them from
/// top to bottom.
#[derive(Clone, Debug, PartialEq, Eq)]
pub enum Item {
    /// The heading of the login screen.
    Title,
    /// The homeserver field, always editable, and its submit control.
    /// `submit_enabled` says whether pressing return in the field or
    /// pressing the button beside it submits the hostname.
    Hostname { hostname: String, submit_enabled: bool },
    /// A horizontal rule.
    Rule,
    /// The notice that a client is being constructed.
    Connecting,
    /// The notice that the homeserver is being asked for its login methods.
    GettingAuthTypes,
    /// The explanation of a failure.
    Error(String),
    /// The heading of the password section.
    PasswordHeading,
    /// The username field.
    Username { username: String },
    /// The password field and the control that toggles its masking.
    /// `secure` says whether the text is masked.
    Password { password: String, secure: bool },
    /// The button that logs in with username and password.
    LoginButton,
    /// The heading of the single sign-on section.
    SsoHeading,
    /// The button that opens single sign-on in a browser.
    SsoButton,
}

/// An [`Item`] with its texts as sequences of characters.
pub enum ItemModel {
    Title,
    Hostname { hostname: Seq<char>, submit_enabled: bool },
    Rule,
    Connecting,
    GettingAuthTypes,
    Error(Seq<char>),
    PasswordHeading,
    Username { username: Seq<char> },
    Password { password: Seq<char>, secure: bool },
    LoginButton,
    SsoHeading,
    SsoButton,
}

impl View for Item {
    type V = ItemModel;

    open spec fn view(&self) -> ItemModel {
        match self {
            Item::Title => ItemModel::Title,
            Item::Hostname { hostname, submit_enabled } => ItemModel::Hostname {
                hostname: hostname@,
                submit_enabled: *submit_enabled,
            },
            Item::Rule => ItemModel::Rule,
            Item::Connecting => ItemModel::Connecting,
            Item::GettingAuthTypes => ItemModel::GettingAuthTypes,
            Item::Error(text) => ItemModel::Error(text@),
            Item::PasswordHeading => ItemModel::PasswordHeading,
            Item::Username { username } => ItemModel::Username { username: username@ },
            Item::Password { password, secure } => ItemModel::Password {
                password: password@,
                secure: *secure,
            },
            Item::LoginButton => ItemModel::LoginButton,
            Item::SsoHeading => ItemModel::SsoHeading,
            Item::SsoButton => ItemModel::SsoButton,
        }
    }
}

/// The models of a list of items, in the same order.
pub open spec fn item_models(items: Seq<Item>) -> Seq<ItemModel> {
    items.map_values(|item: Item| item@)
}

} // verus!

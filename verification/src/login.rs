//! The login screen: its form, its events, and the work it asks for.

use crate::auth::{auth_types_of, AuthTypes, LoginFlow};
use crate::ui::{item_models, Item, ItemModel};
use vstd::prelude::*;

verus! {

/// How far the probe of the homeserver has come.
#[derive(Clone, Debug, PartialEq, Eq)]
pub enum HomeserverState {
    /// No probe was started yet.
    Idle,
    /// A client for the homeserver is being constructed.
    Connecting,
    /// The homeserver is being asked for its login methods.
    GettingAuthTypes,
    /// The homeserver answered with the methods it offers.
    AuthTypes(AuthTypes),
    /// The probe failed; the text explains why.
    Error(String),
}

/// A [`HomeserverState`] with its text as a sequence of characters.
pub enum Stage {
    Idle,
    Connecting,
    GettingAuthTypes,
    AuthTypes(AuthTypes),
    Error(Seq<char>),
}

impl View for HomeserverState {
    type V = Stage;

    open spec fn view(&self) -> Stage {
        match self {
            HomeserverState::Idle => Stage::Idle,
            HomeserverState::Connecting => Stage::Connecting,
            HomeserverState::GettingAuthTypes => Stage::GettingAuthTypes,
            HomeserverState::AuthTypes(auth_types) => Stage::AuthTypes(*auth_types),
            HomeserverState::Error(text) => Stage::Error(text@),
        }
    }
}

impl Default for HomeserverState {
    /// The state before any probe.
    fn default() -> (state: Self)
        ensures
            state@ == Stage::Idle,
    {
        HomeserverState::Idle
    }
}

impl Stage {
    /// A probe is under way, so no other may be started.
    pub open spec fn busy(self) -> bool {
        self is Connecting || self is GettingAuthTypes
    }
}

/// The login form: three independent text fields, the masking of the
/// password, and the state of the homeserver probe.
#[derive(Clone, Debug, PartialEq, Eq)]
pub struct App {
    pub hostname: String,
    pub username: String,
    pub password: String,
    pub password_visible: bool,
    pub homeserver_state: HomeserverState,
}

/// An [`App`] with its texts as sequences of characters.
pub struct Form {
    pub hostname: Seq<char>,
    pub username: Seq<char>,
    pub password: Seq<char>,
    pub password_visible: bool,
    pub stage: Stage,
}

/// An event of the login screen: an edit or a press by the user, or the
/// outcome of work that the screen asked for. `C` is the handle of a
/// constructed client, which the screen passes on and never looks into.
#[derive(Debug, PartialEq, Eq)]
pub enum Message<C> {
    /// The hostname field was edited and now holds this text.
    HostnameInput(String),
    /// The hostname was submitted.
    HostnameSubmit,
    /// The username field was edited and now holds this text.
    UsernameInput(String),
    /// The password field was edited and now holds this text.
    PasswordInput(String),
    /// The control that masks and unmasks the password was pressed.
    ToggleHiddenPassword,
    /// The construction of a client ended: with the client, or with the
    /// text that explains the failure.
    ClientConnecton(Result<C, String>),
    /// The query for the login methods ended: with the methods, or with the
    /// text that explains the failure.
    AuthTypes(Result<AuthTypes, String>),
}

impl Default for App {
    /// The form with every field empty, the password masked and no probe
    /// started.
    fn default() -> (app: Self)
        ensures
            app.model() == (Form { hostname: Seq::empty(), ..Form::initial() }),
    {
        App {
            hostname: String::new(),
            username: String::new(),
            password: String::new(),
            password_visible: false,
            homeserver_state: HomeserverState::default(),
        }
    }
}

impl<C: Clone> Clone for Message<C> {
    fn clone(&self) -> (copy: Self) {
        match self {
            Message::HostnameInput(text) => Message::HostnameInput(text.clone()),
            Message::HostnameSubmit => Message::HostnameSubmit,
            Message::UsernameInput(text) => Message::UsernameInput(text.clone()),
            Message::PasswordInput(text) => Message::PasswordInput(text.clone()),
            Message::ToggleHiddenPassword => Message::ToggleHiddenPassword,
            Message::ClientConnecton(Ok(client)) => Message::ClientConnecton(Ok(client.clone())),
            Message::ClientConnecton(Err(text)) => Message::ClientConnecton(Err(text.clone())),
            Message::AuthTypes(Ok(auth_types)) => Message::AuthTypes(Ok(*auth_types)),
            Message::AuthTypes(Err(text)) => Message::AuthTypes(Err(text.clone())),
        }
    }
}

/// A [`Message`] with its texts as sequences of characters.
pub enum Event<C> {
    HostnameInput(Seq<char>),
    HostnameSubmit,
    UsernameInput(Seq<char>),
    PasswordInput(Seq<char>),
    ToggleHiddenPassword,
    ClientConnecton(Result<C, Seq<char>>),
    AuthTypes(Result<AuthTypes, Seq<char>>),
}

impl<C> View for Message<C> {
    type V = Event<C>;

    open spec fn view(&self) -> Event<C> {
        match self {
            Message::HostnameInput(text) => Event::HostnameInput(text@),
            Message::HostnameSubmit => Event::HostnameSubmit,
            Message::UsernameInput(text) => Event::UsernameInput(text@),
            Message::PasswordInput(text) => Event::PasswordInput(text@),
            Message::ToggleHiddenPassword => Event::ToggleHiddenPassword,
            Message::ClientConnecton(Ok(client)) => Event::ClientConnecton(Ok(*client)),
            Message::ClientConnecton(Err(text)) => Event::ClientConnecton(Err(text@)),
            Message::AuthTypes(Ok(auth_types)) => Event::AuthTypes(Ok(*auth_types)),
            Message::AuthTypes(Err(text)) => Event::AuthTypes(Err(text@)),
        }
    }
}

impl<C> Event<C> {
    /// An edit of one field or a press of the masking control: an event
    /// that touches one field of the form and nothing else.
    pub open spec fn is_field_edit(self) -> bool {
        self is HostnameInput || self is UsernameInput || self is PasswordInput
            || self is ToggleHiddenPassword
    }
}

/// The work that the login screen asks the program around it to perform.
#[derive(Clone, Debug, PartialEq, Eq)]
pub enum Task<C> {
    /// No work.
    Nothing,
    /// Deliver this message to the screen at once.
    Done(Message<C>),
    /// Construct a client for the homeserver of this hostname, and deliver
    /// the outcome as [`Message::ClientConnecton`].
    Connect(String),
    /// Ask the homeserver behind this client for its login methods, and
    /// deliver the outcome as [`Message::AuthTypes`].
    GetAuthTypes(C),
}

/// A [`Task`] with its texts as sequences of characters.
pub enum Effect<C> {
    Nothing,
    Done(Event<C>),
    Connect(Seq<char>),
    GetAuthTypes(C),
}

impl<C> View for Task<C> {
    type V = Effect<C>;

    open spec fn view(&self) -> Effect<C> {
        match self {
            Task::Nothing => Effect::Nothing,
            Task::Done(message) => Effect::Done(message@),
            Task::Connect(hostname) => Effect::Connect(hostname@),
            Task::GetAuthTypes(client) => Effect::GetAuthTypes(*client),
        }
    }
}

impl Form {
    /// The form as the screen is entered: the default homeserver, empty
    /// credentials, a masked password, and no probe started.
    pub open spec fn initial() -> Form {
        Form {
            hostname: "matrix.org"@,
            username: Seq::empty(),
            password: Seq::empty(),
            password_visible: false,
            stage: Stage::Idle,
        }
    }

    /// The form after one event.
    ///
    /// An edit replaces the text of its field, and the masking control
    /// flips the masking. A submit starts a probe unless one is under way.
    /// The end of a step of the probe moves the stage on, or records the
    /// failure.
    pub open spec fn step<C>(self, event: Event<C>) -> Form {
        match event {
            Event::HostnameInput(text) => Form { hostname: text, ..self },
            Event::UsernameInput(text) => Form { username: text, ..self },
            Event::PasswordInput(text) => Form { password: text, ..self },
            Event::ToggleHiddenPassword => Form {
                password_visible: !self.password_visible,
                ..self
            },
            Event::HostnameSubmit => if self.stage.busy() {
                self
            } else {
                Form { stage: Stage::Connecting, ..self }
            },
            Event::ClientConnecton(Ok(_)) => Form { stage: Stage::GettingAuthTypes, ..self },
            Event::ClientConnecton(Err(text)) => Form { stage: Stage::Error(text), ..self },
            Event::AuthTypes(Ok(auth_types)) => Form { stage: Stage::AuthTypes(auth_types), ..self },
            Event::AuthTypes(Err(text)) => Form { stage: Stage::Error(text), ..self },
        }
    }

    /// The work that one event makes the form ask for.
    ///
    /// A submit that starts a probe asks for a client for the hostname as
    /// it stands; a constructed client is handed on to the query for the
    /// login methods; nothing else asks for anything.
    pub open spec fn effect<C>(self, event: Event<C>) -> Effect<C> {
        match event {
            Event::HostnameSubmit => if self.stage.busy() {
                Effect::Nothing
            } else {
                Effect::Connect(self.hostname)
            },
            Event::ClientConnecton(Ok(client)) => Effect::GetAuthTypes(client),
            _ => Effect::Nothing,
        }
    }

    /// The form after a sequence of events, taken in order.
    pub open spec fn run<C>(self, events: Seq<Event<C>>) -> Form
        decreases events.len(),
    {
        if events.len() == 0 {
            self
        } else {
            self.step(events.first()).run(events.drop_first())
        }
    }

    /// The three items that every state of the form starts with.
    pub open spec fn header(self) -> Seq<ItemModel> {
        seq![
            ItemModel::Title,
            ItemModel::Hostname { hostname: self.hostname, submit_enabled: !self.stage.busy() },
            ItemModel::Rule,
        ]
    }

    /// The password section: present exactly when password login is on
    /// offer, and closed by a rule exactly when single sign-on follows it.
    pub open spec fn password_section(self, auth_types: AuthTypes) -> Seq<ItemModel> {
        if auth_types.password {
            seq![
                ItemModel::PasswordHeading,
                ItemModel::Username { username: self.username },
                ItemModel::Password { password: self.password, secure: !self.password_visible },
                ItemModel::LoginButton,
            ] + (if auth_types.sso {
                seq![ItemModel::Rule]
            } else {
                seq![]
            })
        } else {
            seq![]
        }
    }

    /// The single sign-on section: present exactly when it is on offer.
    pub open spec fn sso_section(auth_types: AuthTypes) -> Seq<ItemModel> {
        if auth_types.sso {
            seq![ItemModel::SsoHeading, ItemModel::SsoButton]
        } else {
            seq![]
        }
    }

    /// What the form shows below its header.
    pub open spec fn content(self) -> Seq<ItemModel> {
        match self.stage {
            Stage::Idle => seq![],
            Stage::Connecting => seq![ItemModel::Connecting],
            Stage::GettingAuthTypes => seq![ItemModel::GettingAuthTypes],
            Stage::Error(text) => seq![ItemModel::Error(text)],
            Stage::AuthTypes(auth_types) => self.password_section(auth_types) + Self::sso_section(
                auth_types,
            ),
        }
    }

    /// Everything the form shows, from top to bottom.
    pub open spec fn items(self) -> Seq<ItemModel> {
        self.header() + self.content()
    }
}

impl App {
    /// The form as mathematical data.
    pub open spec fn model(&self) -> Form {
        Form {
            hostname: self.hostname@,
            username: self.username@,
            password: self.password@,
            password_visible: self.password_visible,
            stage: self.homeserver_state@,
        }
    }

    /// The form as the screen is entered, and the request to submit the
    /// default hostname at once.
    pub fn new<C>() -> (start: (App, Task<C>))
        ensures
            start.0.model() == Form::initial(),
            start.1@ == Effect::<C>::Done(Event::HostnameSubmit),
    {
        (
            App {
                hostname: "matrix.org".to_owned(),
                username: String::new(),
                password: String::new(),
                password_visible: false,
                homeserver_state: HomeserverState::default(),
            },
            Task::Done(Message::HostnameSubmit),
        )
    }

    /// Applies one event to the form and returns the work it asks for.
    pub fn update<C>(&mut self, message: Message<C>) -> (task: Task<C>)
        ensures
            final(self).model() == old(self).model().step(message@),
            task@ == old(self).model().effect(message@),
    {
        match message {
            Message::HostnameInput(string) => {
                self.hostname = string;
            },
            Message::UsernameInput(string) => {
                self.username = string;
            },
            Message::PasswordInput(string) => {
                self.password = string;
            },
            Message::ToggleHiddenPassword => {
                self.password_visible = !self.password_visible;
            },
            Message::HostnameSubmit => {
                if !self.busy() {
                    self.homeserver_state = HomeserverState::Connecting;
                    return Task::Connect(self.hostname.clone());
                }
            },
            Message::ClientConnecton(result) => match result {
                Ok(client) => {
                    self.homeserver_state = HomeserverState::GettingAuthTypes;
                    return Task::GetAuthTypes(client);
                },
                Err(error) => {
                    self.homeserver_state = HomeserverState::Error(error);
                },
            },
            Message::AuthTypes(result) => match result {
                Ok(auth_types) => {
                    self.homeserver_state = HomeserverState::AuthTypes(auth_types);
                },
                Err(error) => {
                    self.homeserver_state = HomeserverState::Error(error);
                },
            },
        }
        Task::Nothing
    }

    /// Whether a probe is under way.
    pub fn busy(&self) -> (busy: bool)
        ensures
            busy == self.model().stage.busy(),
    {
        match self.homeserver_state {
            HomeserverState::Connecting | HomeserverState::GettingAuthTypes => true,
            _ => false,
        }
    }

    /// Describes the screen for the current state of the form.
    pub fn view(&self) -> (items: Vec<Item>)
        ensures
            item_models(items@) == self.model().items(),
    {
        let mut items: Vec<Item> = Vec::new();

        items.push(Item::Title);
        items.push(Item::Hostname { hostname: self.hostname.clone(), submit_enabled: !self.busy() });
        items.push(Item::Rule);
        assert(item_models(items@) =~= self.model().header());

        match &self.homeserver_state {
            HomeserverState::Idle => {},
            HomeserverState::Connecting => {
                items.push(Item::Connecting);
            },
            HomeserverState::GettingAuthTypes => {
                items.push(Item::GettingAuthTypes);
            },
            HomeserverState::Error(error) => {
                items.push(Item::Error(error.clone()));
            },
            HomeserverState::AuthTypes(auth_types) => {
                if auth_types.password {
                    items.push(Item::PasswordHeading);
                    items.push(Item::Username { username: self.username.clone() });
                    items.push(
                        Item::Password {
                            password: self.password.clone(),
                            secure: !self.password_visible,
                        },
                    );
                    items.push(Item::LoginButton);
                    if auth_types.sso {
                        items.push(Item::Rule);
                    }
                }
                if auth_types.sso {
                    items.push(Item::SsoHeading);
                    items.push(Item::SsoButton);
                }
            },
        }
        assert(item_models(items@) =~= self.model().items());
        items
    }
}

/// Edits never touch the probe: after any sequence of field edits and
/// presses of the masking control, with no submit and no outcome of the
/// probe among them, the stage is what it was.
pub proof fn lemma_field_edits_keep_stage<C>(form: Form, events: Seq<Event<C>>)
    requires
        forall|i: int| 0 <= i < events.len() ==> (#[trigger] events[i]).is_field_edit(),
    ensures
        form.run(events).stage == form.stage,
    decreases events.len(),
{
    if events.len() > 0 {
        let rest = events.drop_first();
        assert(events[0].is_field_edit());
        assert forall|i: int| 0 <= i < rest.len() implies (#[trigger] rest[i]).is_field_edit() by {
            assert(rest[i] == events[i + 1]);
        }
        lemma_field_edits_keep_stage(form.step(events.first()), rest);
    }
}

/// An edit asks for no work.
pub proof fn lemma_field_edit_asks_nothing<C>(form: Form, event: Event<C>)
    requires
        event.is_field_edit(),
    ensures
        form.effect(event) == Effect::<C>::Nothing,
        form.step(event).stage == form.stage,
{
}

/// While a probe is under way a submit changes nothing and asks for
/// nothing.
pub proof fn lemma_submit_while_busy<C>(form: Form)
    requires
        form.stage.busy(),
    ensures
        form.step(Event::<C>::HostnameSubmit) == form,
        form.effect(Event::<C>::HostnameSubmit) == Effect::<C>::Nothing,
{
}

/// While no probe is under way a submit starts one for the hostname as it
/// stands, whatever an earlier probe ended with.
pub proof fn lemma_submit_starts_probe<C>(form: Form)
    requires
        !form.stage.busy(),
    ensures
        form.step(Event::<C>::HostnameSubmit) == (Form { stage: Stage::Connecting, ..form }),
        form.effect(Event::<C>::HostnameSubmit) == Effect::<C>::Connect(form.hostname),
{
}

/// A constructed client followed by an answered query always ends in the
/// resolved stage, with exactly the methods that the flows amount to; and
/// the query is asked of the very client that was constructed.
pub proof fn lemma_probe_resolves<C>(form: Form, client: C, flows: Seq<LoginFlow>)
    ensures
        form.step(Event::ClientConnecton(Ok(client))).stage == Stage::GettingAuthTypes,
        form.effect(Event::ClientConnecton(Ok(client))) == Effect::GetAuthTypes(client),
        form.step(Event::ClientConnecton(Ok(client))).step(
            Event::<C>::AuthTypes(Ok(auth_types_of(flows))),
        ).stage == Stage::AuthTypes(auth_types_of(flows)),
{
}

/// A failed construction ends the probe with its explanation and asks for
/// no query.
pub proof fn lemma_failed_construction_ends_probe<C>(form: Form, text: Seq<char>)
    ensures
        form.step(Event::<C>::ClientConnecton(Err(text))).stage == Stage::Error(text),
        form.effect(Event::<C>::ClientConnecton(Err(text))) == Effect::<C>::Nothing,
{
}

/// Only a constructed client leads to the query: no other event asks for
/// it, and no other event moves the form into the stage that waits for its
/// answer.
pub proof fn lemma_query_needs_client<C>(form: Form, event: Event<C>)
    ensures
        form.effect(event) is GetAuthTypes <==> event matches Event::ClientConnecton(Ok(_)),
        form.step(event).stage is GettingAuthTypes ==> form.stage is GettingAuthTypes
            || event matches Event::ClientConnecton(Ok(_)),
{
}

/// Pressing the masking control twice restores the form, and pressing it
/// once leaves every text, the password among them, as it was.
pub proof fn lemma_toggle_twice<C>(form: Form)
    ensures
        form.step(Event::<C>::ToggleHiddenPassword).step(Event::<C>::ToggleHiddenPassword)
            == form,
        form.step(Event::<C>::ToggleHiddenPassword).password_visible == !form.password_visible,
        form.step(Event::<C>::ToggleHiddenPassword).password == form.password,
        form.step(Event::<C>::ToggleHiddenPassword).username == form.username,
        form.step(Event::<C>::ToggleHiddenPassword).hostname == form.hostname,
{
}

/// The submit control is enabled exactly while no probe is under way, and
/// the hostname field is shown in every stage.
pub proof fn lemma_submit_control(form: Form)
    ensures
        form.items().len() >= 3,
        form.items()[1] == (ItemModel::Hostname {
            hostname: form.hostname,
            submit_enabled: !form.stage.busy(),
        }),
{
}

/// The credential fields are shown exactly when password login is on
/// offer, and the single sign-on button exactly when single sign-on is.
pub proof fn lemma_sections_follow_methods(form: Form)
    ensures
        form.items().contains(ItemModel::Username { username: form.username }) <==> (
        form.stage matches Stage::AuthTypes(auth_types) && auth_types.password),
        form.items().contains(
            ItemModel::Password { password: form.password, secure: !form.password_visible },
        ) <==> (form.stage matches Stage::AuthTypes(auth_types) && auth_types.password),
        form.items().contains(ItemModel::SsoButton) <==> (form.stage matches Stage::AuthTypes(
            auth_types,
        ) && auth_types.sso),
{
    let items = form.items();
    let username = ItemModel::Username { username: form.username };
    let password = ItemModel::Password {
        password: form.password,
        secure: !form.password_visible,
    };
    assert(items =~= form.header() + form.content());
    match form.stage {
        Stage::AuthTypes(auth_types) => {
            if auth_types.password {
                assert(items[4] == username);
                assert(items[5] == password);
                if auth_types.sso {
                    assert(items[9] == ItemModel::SsoButton);
                }
            } else if auth_types.sso {
                assert(items[4] == ItemModel::SsoButton);
            }
        },
        _ => {},
    }
}

} // verus!

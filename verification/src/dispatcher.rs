//! The dispatcher: it owns the one active screen, hands each event to the
//! screen it is tagged for, and lifts the work that the screen asks for.

use crate::chat;
use crate::login;
use crate::login::Form;
use crate::restore;
use crate::ui::{item_models, Item, ItemModel};
use vstd::prelude::*;

verus! {

/// The name of a screen.
#[derive(Clone, Copy, Debug, PartialEq, Eq, Structural)]
pub enum Tag {
    Restore,
    Login,
    Chat,
}

/// The active screen with its state. Exactly one screen is active at a
/// time, and its state is the only state there is.
#[derive(Clone, Debug, PartialEq, Eq)]
pub enum Screen {
    Restore(restore::App),
    Login(login::App),
    Chat(chat::App),
}

/// A [`Screen`] as mathematical data.
pub enum ScreenModel {
    Restore,
    Login(Form),
    Chat,
}

/// An event, tagged for the screen it belongs to.
#[derive(Debug, PartialEq, Eq)]
pub enum Message<C> {
    Restore(restore::Message),
    Login(login::Message<C>),
    Chat(chat::Message),
}

/// A [`Message`] as mathematical data.
pub enum Event<C> {
    Restore,
    Login(login::Event<C>),
    Chat,
}

impl<C> View for Message<C> {
    type V = Event<C>;

    open spec fn view(&self) -> Event<C> {
        match self {
            Message::Restore(_) => Event::Restore,
            Message::Login(message) => Event::Login(message@),
            Message::Chat(_) => Event::Chat,
        }
    }
}

impl<C> Event<C> {
    /// The screen that the event is tagged for.
    pub open spec fn tag(self) -> Tag {
        match self {
            Event::Restore => Tag::Restore,
            Event::Login(_) => Tag::Login,
            Event::Chat => Tag::Chat,
        }
    }
}

/// The work that the dispatcher passes on, tagged with the screen that
/// asked for it: the outcome goes back into the dispatcher as an event with
/// the same tag.
#[derive(Debug, PartialEq, Eq)]
pub enum Action<C> {
    /// No work.
    Nothing,
    Restore(restore::Task),
    Login(login::Task<C>),
    Chat(chat::Task),
}

/// An [`Action`] as mathematical data.
pub enum Effect<C> {
    Nothing,
    Restore,
    Login(login::Effect<C>),
    Chat,
}

impl<C> View for Action<C> {
    type V = Effect<C>;

    open spec fn view(&self) -> Effect<C> {
        match self {
            Action::Nothing => Effect::Nothing,
            Action::Restore(_) => Effect::Restore,
            Action::Login(task) => Effect::Login(task@),
            Action::Chat(_) => Effect::Chat,
        }
    }
}

/// The work of the login screen as the dispatcher passes it on.
pub open spec fn lift_login<C>(effect: login::Effect<C>) -> Effect<C> {
    match effect {
        login::Effect::Nothing => Effect::Nothing,
        _ => Effect::Login(effect),
    }
}

impl ScreenModel {
    /// The name of the screen.
    pub open spec fn tag(self) -> Tag {
        match self {
            ScreenModel::Restore => Tag::Restore,
            ScreenModel::Login(_) => Tag::Login,
            ScreenModel::Chat => Tag::Chat,
        }
    }

    /// The dispatcher as the program starts: the login screen as it is
    /// entered.
    pub open spec fn initial() -> ScreenModel {
        ScreenModel::Login(Form::initial())
    }

    /// The active screen after one event. An event tagged for the active
    /// screen is applied by that screen; any other event is discarded.
    pub open spec fn route<C>(self, event: Event<C>) -> ScreenModel {
        match (self, event) {
            (ScreenModel::Login(form), Event::Login(inner)) => ScreenModel::Login(form.step(inner)),
            _ => self,
        }
    }

    /// The work that one event leads to: what the active screen asks for
    /// when the event is tagged for it, and nothing otherwise.
    pub open spec fn lift<C>(self, event: Event<C>) -> Effect<C> {
        match (self, event) {
            (ScreenModel::Login(form), Event::Login(inner)) => lift_login(form.effect(inner)),
            _ => Effect::Nothing,
        }
    }

    /// The active screen after a transition: the next screen, with nothing
    /// left of the one before.
    pub open spec fn transition(self, next: ScreenModel) -> ScreenModel {
        next
    }

    /// What the active screen shows.
    pub open spec fn items(self) -> Seq<ItemModel> {
        match self {
            ScreenModel::Login(form) => form.items(),
            _ => seq![],
        }
    }
}

impl Screen {
    /// The screen as mathematical data.
    pub open spec fn model(&self) -> ScreenModel {
        match self {
            Screen::Restore(_) => ScreenModel::Restore,
            Screen::Login(app) => ScreenModel::Login(app.model()),
            Screen::Chat(_) => ScreenModel::Chat,
        }
    }
}

/// The owner of the active screen.
#[derive(Clone, Debug, PartialEq, Eq)]
pub struct Dispatcher {
    pub screen: Screen,
}

impl Dispatcher {
    /// The active screen as mathematical data.
    pub open spec fn model(&self) -> ScreenModel {
        self.screen.model()
    }

    /// The dispatcher as the program starts: the login screen is active,
    /// and the work it asks for on entry is passed on.
    pub fn new<C>() -> (start: (Dispatcher, Action<C>))
        ensures
            start.0.model() == ScreenModel::initial(),
            start.1@ == Effect::<C>::Login(login::Effect::Done(login::Event::HostnameSubmit)),
    {
        let (app, task) = login::App::new();
        (Dispatcher { screen: Screen::Login(app) }, Action::Login(task))
    }

    /// The name of the active screen.
    pub fn tag(&self) -> (tag: Tag)
        ensures
            tag == self.model().tag(),
    {
        match &self.screen {
            Screen::Restore(_) => Tag::Restore,
            Screen::Login(_) => Tag::Login,
            Screen::Chat(_) => Tag::Chat,
        }
    }

    /// Hands one event to the active screen if it is tagged for it, and
    /// passes on the work that the screen asks for. An event tagged for
    /// another screen is discarded: nothing changes and no work is asked
    /// for.
    pub fn update<C>(&mut self, message: Message<C>) -> (action: Action<C>)
        ensures
            final(self).model() == old(self).model().route(message@),
            action@ == old(self).model().lift(message@),
    {
        match message {
            Message::Restore(inner) => match &mut self.screen {
                Screen::Restore(app) => match app.update(inner) {
                    restore::Action::Nothing => Action::Nothing,
                    restore::Action::Task(task) => Action::Restore(task),
                },
                _ => Action::Nothing,
            },
            Message::Login(inner) => match &mut self.screen {
                Screen::Login(app) => match app.update(inner) {
                    login::Task::Nothing => Action::Nothing,
                    task => Action::Login(task),
                },
                _ => Action::Nothing,
            },
            Message::Chat(inner) => match &mut self.screen {
                Screen::Chat(app) => match app.update(inner) {
                    chat::Action::Nothing => Action::Nothing,
                    chat::Action::Task(task) => Action::Chat(task),
                },
                _ => Action::Nothing,
            },
        }
    }

    /// Discards the active screen with all its state and makes `next` the
    /// active screen.
    pub fn transition(&mut self, next: Screen)
        ensures
            final(self).screen == next,
            final(self).model() == old(self).model().transition(next.model()),
    {
        self.screen = next;
    }

    /// Describes the active screen.
    pub fn view(&self) -> (items: Vec<Item>)
        ensures
            item_models(items@) == self.model().items(),
    {
        let items = match &self.screen {
            Screen::Restore(app) => app.view(),
            Screen::Login(app) => app.view(),
            Screen::Chat(app) => app.view(),
        };
        assert(item_models(items@) =~= self.model().items());
        items
    }
}

/// An event tagged for a screen that is not the active one is discarded:
/// the active screen stays exactly as it is, and no work is asked for.
pub proof fn lemma_stale_event_is_discarded<C>(screen: ScreenModel, event: Event<C>)
    requires
        event.tag() != screen.tag(),
    ensures
        screen.route(event) == screen,
        screen.lift(event) == Effect::<C>::Nothing,
{
}

/// A discarded screen is out of reach. After a transition the active
/// screen is the next one alone, whatever was active before; and an event
/// tagged for any other screen, the discarded one among them, leaves the
/// next screen exactly as it is, however often it is delivered.
pub proof fn lemma_discarded_screen_is_gone<C>(
    before: ScreenModel,
    next: ScreenModel,
    event: Event<C>,
)
    requires
        event.tag() != next.tag(),
    ensures
        before.transition(next) == next,
        before.transition(next).route(event) == next,
        before.transition(next).route(event).route(event) == next,
        before.transition(next).lift(event) == Effect::<C>::Nothing,
{
}

/// An event never changes which screen is active, and it reaches the
/// state of at most one screen: that of the active screen, and only when
/// it is tagged for it.
pub proof fn lemma_event_keeps_screen<C>(screen: ScreenModel, event: Event<C>)
    ensures
        screen.route(event).tag() == screen.tag(),
        screen.route(event) != screen ==> event.tag() == screen.tag(),
        screen.lift(event) != Effect::<C>::Nothing ==> event.tag() == screen.tag(),
{
}

/// The login screen under the dispatcher behaves as it does alone: its
/// events are applied by its own rules, and the work it asks for is passed
/// on under its tag.
pub proof fn lemma_login_is_routed<C>(form: Form, event: login::Event<C>)
    ensures
        ScreenModel::Login(form).route(Event::Login(event)) == ScreenModel::Login(
            form.step(event),
        ),
        ScreenModel::Login(form).lift(Event::Login(event)) == lift_login(form.effect(event)),
{
}

} // verus!

//! What the user interface holds: its pages, the drawer beside them, and the
//! data that the feeds have delivered so far.

use crate::config::{Config, ConfigView};
use crate::structs::{copy_list, list_view, WsKind};
use crate::viewer::{Event, EventView, Message, MessageView};
use rosu_v2::model::score::Score;
use rosu_v2::model::user::UserExtended;
use vstd::prelude::*;
use vstd::string::*;

verus! {

/// The page to display.
#[derive(Clone, Copy, PartialEq, Eq, Debug, Structural)]
pub enum Page {
    UserPage,
    TopsPage,
    FirstsPage,
    RecentPage,
}

/// The page to display in the drawer.
#[derive(Clone, Copy, PartialEq, Eq, Debug, Structural)]
pub enum ContextPage {
    About,
}

impl Default for ContextPage {
    fn default() -> (page: Self)
        ensures
            page == ContextPage::About,
    {
        ContextPage::About
    }
}

/// What the menu can ask for.
#[derive(Clone, Copy, PartialEq, Eq, Debug, Structural)]
pub enum MenuAction {
    About,
}

/// Whether the feeds are connected, as far as the interface knows.
#[derive(Clone, Copy, PartialEq, Eq, Debug, Structural)]
pub enum State {
    Disconnected,
    Connected,
}

impl Default for State {
    fn default() -> (state: Self)
        ensures
            state == State::Disconnected,
    {
        State::Disconnected
    }
}

/// What the interface and the feeds tell the model.
#[derive(Clone, Debug)]
pub enum AppMessage {
    OpenRepositoryUrl,
    ToggleContextPage(ContextPage),
    UpdateConfig(Config),
    LaunchUrl(String),
    StartServer,
    ReceiveMessage(Event),
}

/// A message to the model, with its texts and lists as sequences.
pub enum AppMessageView {
    OpenRepositoryUrl,
    ToggleContextPage(ContextPage),
    UpdateConfig(ConfigView),
    LaunchUrl(Seq<char>),
    StartServer,
    ReceiveMessage(EventView),
}

impl View for AppMessage {
    type V = AppMessageView;

    open spec fn view(&self) -> AppMessageView {
        match self {
            AppMessage::OpenRepositoryUrl => AppMessageView::OpenRepositoryUrl,
            AppMessage::ToggleContextPage(page) => AppMessageView::ToggleContextPage(*page),
            AppMessage::UpdateConfig(config) => AppMessageView::UpdateConfig(config@),
            AppMessage::LaunchUrl(url) => AppMessageView::LaunchUrl(url@),
            AppMessage::StartServer => AppMessageView::StartServer,
            AppMessage::ReceiveMessage(event) => AppMessageView::ReceiveMessage(event@),
        }
    }
}

impl MenuAction {
    /// The message that this action sends.
    pub fn message(&self) -> (message: AppMessage)
        ensures
            message@ == AppMessageView::ToggleContextPage(ContextPage::About),
    {
        match self {
            MenuAction::About => AppMessage::ToggleContextPage(ContextPage::About),
        }
    }
}

impl Page {
    /// The feed that fills this page.
    pub fn feed(&self) -> (kind: WsKind)
        ensures
            kind == match *self {
                Page::UserPage => WsKind::User,
                Page::TopsPage => WsKind::Tops,
                Page::FirstsPage => WsKind::Firsts,
                Page::RecentPage => WsKind::Recent,
            },
    {
        match self {
            Page::UserPage => WsKind::User,
            Page::TopsPage => WsKind::Tops,
            Page::FirstsPage => WsKind::Firsts,
            Page::RecentPage => WsKind::Recent,
        }
    }

    /// The name of this page in the navigation bar.
    pub open spec fn title_of(self) -> Seq<char> {
        match self {
            Page::UserPage => "User"@,
            Page::TopsPage => "Tops"@,
            Page::FirstsPage => "Firsts"@,
            Page::RecentPage => "Recent"@,
        }
    }

    /// The name of this page in the navigation bar.
    pub fn title(&self) -> (name: &'static str)
        ensures
            name@ == self.title_of(),
    {
        match self {
            Page::UserPage => "User",
            Page::TopsPage => "Tops",
            Page::FirstsPage => "Firsts",
            Page::RecentPage => "Recent",
        }
    }
}

/// The window's title: the program's name, and behind a dash the name of the
/// page that is open, if one is.
pub open spec fn window_title_of(page: Option<Page>) -> Seq<char> {
    match page {
        Some(page) => "rosu-tracker"@ + " \u{2014} "@ + page.title_of(),
        None => "rosu-tracker"@,
    }
}

/// The window's title.
pub fn window_title(page: Option<Page>) -> (title: String)
    ensures
        title@ == window_title_of(page),
{
    let mut title = "rosu-tracker".to_owned();
    match page {
        Some(page) => {
            title.append(" \u{2014} ");
            title.append(page.title());
        },
        None => {},
    }
    title
}

/// The drawer beside the pages: which page it holds and whether it is open.
#[derive(Clone, Copy, PartialEq, Eq, Debug, Structural)]
pub struct Drawer {
    pub page: ContextPage,
    pub shown: bool,
}

impl Drawer {
    /// The drawer after a page was toggled: asking for the page it holds flips
    /// it between open and shut; asking for another page opens it on that
    /// page.
    pub open spec fn toggled(self, page: ContextPage) -> Drawer {
        if self.page == page {
            Drawer { page, shown: !self.shown }
        } else {
            Drawer { page, shown: true }
        }
    }

    /// Toggles a page of the drawer.
    pub fn toggle(&mut self, page: ContextPage)
        ensures
            *final(self) == old(self).toggled(page),
    {
        if self.page == page {
            self.shown = !self.shown;
        } else {
            self.page = page;
            self.shown = true;
        }
    }
}

/// What the interface holds besides its widgets. Of the profile, the top
/// scores and the first places it keeps the latest value and the first one it
/// ever got; of the recent scores only the latest.
#[derive(Clone, Debug)]
pub struct AppModel {
    pub drawer: Drawer,
    pub config: Config,
    pub state: State,
    pub user_extended: Option<Box<UserExtended>>,
    pub user_tops: Option<Vec<Score>>,
    pub user_firsts: Option<Vec<Score>>,
    pub user_recent: Option<Vec<Score>>,
    pub initial_user_extended: Option<Box<UserExtended>>,
    pub initial_user_tops: Option<Vec<Score>>,
    pub initial_user_firsts: Option<Vec<Score>>,
}

/// What the model holds, with each list as a sequence.
pub struct AppModelView {
    pub drawer: Drawer,
    pub config: ConfigView,
    pub state: State,
    pub user: Option<UserExtended>,
    pub tops: Option<Seq<Score>>,
    pub firsts: Option<Seq<Score>>,
    pub recent: Option<Seq<Score>>,
    pub initial_user: Option<UserExtended>,
    pub initial_tops: Option<Seq<Score>>,
    pub initial_firsts: Option<Seq<Score>>,
}

/// What a profile slot holds.
pub open spec fn boxed_view(slot: Option<Box<UserExtended>>) -> Option<UserExtended> {
    match slot {
        Some(profile) => Some(*profile),
        None => None,
    }
}

impl View for AppModel {
    type V = AppModelView;

    open spec fn view(&self) -> AppModelView {
        AppModelView {
            drawer: self.drawer,
            config: self.config@,
            state: self.state,
            user: boxed_view(self.user_extended),
            tops: list_view(self.user_tops),
            firsts: list_view(self.user_firsts),
            recent: list_view(self.user_recent),
            initial_user: boxed_view(self.initial_user_extended),
            initial_tops: list_view(self.initial_user_tops),
            initial_firsts: list_view(self.initial_user_firsts),
        }
    }
}

/// The first value stays the first: a slot that is filled keeps what it has,
/// an empty one takes the new value.
pub open spec fn first_of<T>(initial: Option<T>, new: T) -> Option<T> {
    if initial.is_some() {
        initial
    } else {
        Some(new)
    }
}

impl AppModelView {
    /// The model after a decoded message of a feed.
    pub open spec fn received(self, message: MessageView) -> AppModelView {
        match message {
            MessageView::Connected => self,
            MessageView::Disconnected => self,
            MessageView::User(profile) => AppModelView {
                user: Some(profile),
                initial_user: first_of(self.initial_user, profile),
                ..self
            },
            MessageView::Tops(scores) => AppModelView {
                tops: Some(scores),
                initial_tops: first_of(self.initial_tops, scores),
                ..self
            },
            MessageView::Firsts(scores) => AppModelView {
                firsts: Some(scores),
                initial_firsts: first_of(self.initial_firsts, scores),
                ..self
            },
            MessageView::Recent(scores) => AppModelView { recent: Some(scores), ..self },
        }
    }

    /// The model after a message.
    pub open spec fn updated(self, message: AppMessageView) -> AppModelView {
        match message {
            AppMessageView::OpenRepositoryUrl => self,
            AppMessageView::ToggleContextPage(page) => AppModelView {
                drawer: self.drawer.toggled(page),
                ..self
            },
            AppMessageView::UpdateConfig(config) => AppModelView { config, ..self },
            AppMessageView::LaunchUrl(_) => self,
            AppMessageView::StartServer => self,
            AppMessageView::ReceiveMessage(event) => match event {
                EventView::Connected(_) => AppModelView { state: State::Connected, ..self },
                EventView::Disconnected => AppModelView { state: State::Disconnected, ..self },
                EventView::MessageReceived(message) => self.received(message),
            },
        }
    }

    /// The profile against which changes are shown: the first one received,
    /// or the latest while there is no first.
    pub open spec fn baseline(self) -> Option<UserExtended> {
        if self.initial_user.is_some() {
            self.initial_user
        } else {
            self.user
        }
    }
}

/// The address that a message asks to open, if it asks for one.
pub open spec fn address_of(message: AppMessageView) -> Option<Seq<char>> {
    match message {
        AppMessageView::OpenRepositoryUrl => Some(Seq::empty()),
        AppMessageView::LaunchUrl(url) => Some(url),
        _ => None,
    }
}

/// The text of an address that may be absent.
pub open spec fn address_view(address: Option<String>) -> Option<Seq<char>> {
    match address {
        Some(url) => Some(url@),
        None => None,
    }
}

impl AppModel {
    /// The model at start: nothing received, the drawer shut, not connected.
    pub fn new(config: Config) -> (model: Self)
        ensures
            model@ == (AppModelView {
                drawer: Drawer { page: ContextPage::About, shown: false },
                config: config@,
                state: State::Disconnected,
                user: None,
                tops: None,
                firsts: None,
                recent: None,
                initial_user: None,
                initial_tops: None,
                initial_firsts: None,
            }),
    {
        AppModel {
            drawer: Drawer { page: ContextPage::About, shown: false },
            config,
            state: State::Disconnected,
            user_extended: None,
            user_tops: None,
            user_firsts: None,
            user_recent: None,
            initial_user_extended: None,
            initial_user_tops: None,
            initial_user_firsts: None,
        }
    }

    /// Takes in a decoded message of a feed.
    pub fn receive(&mut self, message: Message)
        ensures
            final(self)@ == old(self)@.received(message@),
    {
        match message {
            Message::Connected => {},
            Message::Disconnected => {},
            Message::User(profile) => {
                if self.initial_user_extended.is_none() {
                    self.initial_user_extended = Some(Box::new((*profile).clone()));
                }
                self.user_extended = Some(profile);
            },
            Message::Tops(scores) => {
                if self.initial_user_tops.is_none() {
                    self.initial_user_tops = Some(copy_list(&scores));
                }
                self.user_tops = Some(scores);
            },
            Message::Firsts(scores) => {
                if self.initial_user_firsts.is_none() {
                    self.initial_user_firsts = Some(copy_list(&scores));
                }
                self.user_firsts = Some(scores);
            },
            Message::Recent(scores) => {
                self.user_recent = Some(scores);
            },
        }
    }

    /// Takes in a message and returns the address to open, where the message
    /// asks for one.
    pub fn update(&mut self, message: AppMessage) -> (address: Option<String>)
        ensures
            final(self)@ == old(self)@.updated(message@),
            address_view(address) == address_of(message@),
    {
        match message {
            AppMessage::OpenRepositoryUrl => Some(String::new()),
            AppMessage::ToggleContextPage(page) => {
                self.drawer.toggle(page);
                None
            },
            AppMessage::UpdateConfig(config) => {
                self.config = config;
                None
            },
            AppMessage::LaunchUrl(url) => Some(url),
            AppMessage::StartServer => None,
            AppMessage::ReceiveMessage(event) => {
                match event {
                    Event::Connected(_) => {
                        self.state = State::Connected;
                    },
                    Event::Disconnected => {
                        self.state = State::Disconnected;
                    },
                    Event::MessageReceived(message) => {
                        self.receive(message);
                    },
                }
                None
            },
        }
    }

    /// The profile against which changes are shown.
    pub fn baseline(&self) -> (profile: Option<&UserExtended>)
        ensures
            match profile {
                Some(p) => self@.baseline() == Some(*p),
                None => self@.baseline().is_none(),
            },
    {
        match &self.initial_user_extended {
            Some(first) => Some(&**first),
            None => match &self.user_extended {
                Some(latest) => Some(&**latest),
                None => None,
            },
        }
    }
}

/// What was received first is never replaced, and the latest value is always
/// the one that came last.
pub proof fn law_first_value_stays(model: AppModelView, message: MessageView)
    ensures
        model.initial_user.is_some() ==> model.received(message).initial_user == model.initial_user,
        model.initial_tops.is_some() ==> model.received(message).initial_tops == model.initial_tops,
        model.initial_firsts.is_some() ==> model.received(message).initial_firsts
            == model.initial_firsts,
        message matches MessageView::User(p) ==> model.received(message).user == Some(p),
        message matches MessageView::Tops(s) ==> model.received(message).tops == Some(s),
        message matches MessageView::Firsts(s) ==> model.received(message).firsts == Some(s),
        message matches MessageView::Recent(s) ==> model.received(message).recent == Some(s),
{
}

} // verus!

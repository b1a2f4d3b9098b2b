//! Session core of a browser client for a networked audio player: the
//! reconnecting event channel, the page router and the page controllers.
//!
//! Nothing here touches the network or the screen. Every function takes what
//! happened (a message) and the state, and answers with the next state and a
//! list of effects: what to open, close, send, fetch or schedule. A shell
//! around the library carries the effects out and reports what came of them
//! as further messages.

use crate::models::player::{Command, CommandView, StatusChangeEvent, StatusChangeEventView};
use crate::request::{Request, RequestView};
use crate::session::{Action, ChannelUnavailable, Session, SessionState, Signal, TimerHandle};
use crate::route::{page_kind, resolve, PageKind};
use crate::url::{
    add_hash_path_part, hash_path, hash_path_cursor, remaining_hash_path, remaining_hash_path_parts,
    url_view, UrlView,
};
use seed::Url;
use vstd::prelude::*;

pub mod answer;
pub mod backoff;
pub mod models;
pub mod number;
pub mod page;
pub mod request;
pub mod route;
pub mod session;
pub mod text;
pub mod url;

verus! {

/// How the channel was closed, as the browser reports it.
#[derive(Clone, Debug, PartialEq, Eq)]
pub struct CloseEvent {
    /// Whether both ends agreed to the close.
    pub was_clean: bool,
    pub code: u16,
    pub reason: String,
}

/// A close, its text read as characters.
pub struct CloseEventView {
    pub was_clean: bool,
    pub code: u16,
    pub reason: Seq<char>,
}

impl DeepView for CloseEvent {
    type V = CloseEventView;

    open spec fn deep_view(&self) -> CloseEventView {
        CloseEventView { was_clean: self.was_clean, code: self.code, reason: self.reason@ }
    }
}

impl View for CloseEvent {
    type V = CloseEventView;

    open spec fn view(&self) -> CloseEventView {
        self.deep_view()
    }
}

/// Everything that can happen to the client.
#[derive(Clone, Debug, PartialEq)]
pub enum Msg {
    /// The channel is open.
    WebSocketOpened,
    /// The user asked to close the channel.
    CloseWebSocket,
    /// The channel was closed. `jitter_ms` is a random number drawn for this
    /// message; it spreads the reconnect attempts.
    WebSocketClosed { event: CloseEvent, jitter_ms: u32 },
    /// The channel failed. `jitter_ms` as above.
    WebSocketFailed { jitter_ms: u32 },
    /// A reconnect timer fired.
    ReconnectWebSocket(TimerHandle),
    /// The location changed.
    UrlChanged(Url),
    /// The backend pushed a notification.
    StatusChangeEventReceived(StatusChangeEvent),
    Settings(page::settings::Msg),
    Player(page::player::Msg),
    Playlist(page::playlist::Msg),
    Queue(page::queue::Msg),
}

/// A message, its texts read as characters.
pub enum MsgView {
    WebSocketOpened,
    CloseWebSocket,
    WebSocketClosed { event: CloseEventView, jitter_ms: u32 },
    WebSocketFailed { jitter_ms: u32 },
    ReconnectWebSocket(TimerHandle),
    UrlChanged(UrlView),
    StatusChangeEventReceived(StatusChangeEventView),
    Settings(page::settings::MsgView),
    Player(page::player::MsgView),
    Playlist(page::playlist::MsgView),
    Queue(page::queue::MsgView),
}

impl DeepView for Msg {
    type V = MsgView;

    open spec fn deep_view(&self) -> MsgView {
        match self {
            Msg::WebSocketOpened => MsgView::WebSocketOpened,
            Msg::CloseWebSocket => MsgView::CloseWebSocket,
            Msg::WebSocketClosed { event, jitter_ms } => MsgView::WebSocketClosed {
                event: event@,
                jitter_ms: *jitter_ms,
            },
            Msg::WebSocketFailed { jitter_ms } => MsgView::WebSocketFailed {
                jitter_ms: *jitter_ms,
            },
            Msg::ReconnectWebSocket(handle) => MsgView::ReconnectWebSocket(*handle),
            Msg::UrlChanged(url) => MsgView::UrlChanged(url_view(*url)),
            Msg::StatusChangeEventReceived(event) => MsgView::StatusChangeEventReceived(event@),
            Msg::Settings(msg) => MsgView::Settings(msg@),
            Msg::Player(msg) => MsgView::Player(msg@),
            Msg::Playlist(msg) => MsgView::Playlist(msg@),
            Msg::Queue(msg) => MsgView::Queue(msg@),
        }
    }
}

impl View for Msg {
    type V = MsgView;

    open spec fn view(&self) -> MsgView {
        self.deep_view()
    }
}

/// What the shell around the library has to do.
#[derive(Clone, Debug, PartialEq)]
pub enum Effect {
    /// Open or close the channel, start or cancel the reconnect timer.
    Channel(Action),
    /// Write the command to the channel, as one text frame.
    SendJson(Command),
    /// Make the request and hand back in the message that reports its answer
    /// (`Request::reported`).
    Fetch(Request),
    /// Hand the message back in, as the next one.
    Dispatch(Msg),
    /// Report every change of the location as `Msg::UrlChanged`.
    SubscribeUrlChanged,
}

/// An effect, its texts read as characters.
pub enum EffectView {
    Channel(Action),
    SendJson(CommandView),
    Fetch(RequestView),
    Dispatch(MsgView),
    SubscribeUrlChanged,
}

impl DeepView for Effect {
    type V = EffectView;

    open spec fn deep_view(&self) -> EffectView {
        match self {
            Effect::Channel(action) => EffectView::Channel(*action),
            Effect::SendJson(command) => EffectView::SendJson(command@),
            Effect::Fetch(request) => EffectView::Fetch(request@),
            Effect::Dispatch(msg) => EffectView::Dispatch(msg@),
            Effect::SubscribeUrlChanged => EffectView::SubscribeUrlChanged,
        }
    }
}

impl View for Effect {
    type V = EffectView;

    open spec fn view(&self) -> EffectView {
        self.deep_view()
    }
}

/// The page that is shown, with its state. There is one at any time; a change
/// of the location puts a new one in its place.
#[derive(Clone, Debug, PartialEq, Eq)]
pub enum Page {
    Home,
    Settings(page::settings::Model),
    Player(page::player::Model),
    Playlist(page::playlist::Model),
    Queue(page::queue::Model),
    NotFound,
}

/// A page, its texts read as characters.
pub enum PageView {
    Home,
    Settings(page::settings::ModelView),
    Player(page::player::ModelView),
    Playlist(page::playlist::ModelView),
    Queue(page::queue::ModelView),
    NotFound,
}

impl DeepView for Page {
    type V = PageView;

    open spec fn deep_view(&self) -> PageView {
        match self {
            Page::Home => PageView::Home,
            Page::Settings(model) => PageView::Settings(model@),
            Page::Player(model) => PageView::Player(model@),
            Page::Playlist(model) => PageView::Playlist(model@),
            Page::Queue(model) => PageView::Queue(model@),
            Page::NotFound => PageView::NotFound,
        }
    }
}

impl View for Page {
    type V = PageView;

    open spec fn view(&self) -> PageView {
        self.deep_view()
    }
}

impl PageView {
    /// Which page this is.
    pub open spec fn kind(self) -> PageKind {
        match self {
            PageView::Home => PageKind::Home,
            PageView::Settings(_) => PageKind::Settings,
            PageView::Player(_) => PageKind::Player,
            PageView::Playlist(_) => PageKind::Playlist,
            PageView::Queue(_) => PageKind::Queue,
            PageView::NotFound => PageKind::NotFound,
        }
    }

    /// The page of kind `kind` as it is when it was just made.
    pub open spec fn fresh(kind: PageKind) -> PageView {
        match kind {
            PageKind::Home => PageView::Home,
            PageKind::Settings => PageView::Settings(page::settings::initial_model()),
            PageKind::Player => PageView::Player(page::player::initial_model()),
            PageKind::Playlist => PageView::Playlist(page::playlist::initial_model()),
            PageKind::Queue => PageView::Queue(page::queue::initial_model()),
            PageKind::NotFound => PageView::NotFound,
        }
    }

    /// What a page of kind `kind` asks for when it is made.
    pub open spec fn fresh_orders(kind: PageKind) -> Seq<EffectView> {
        match kind {
            PageKind::Home => Seq::empty(),
            PageKind::Settings => page::settings::initial_orders(),
            PageKind::Player => page::player::initial_orders(),
            PageKind::Playlist => page::playlist::initial_orders(),
            PageKind::Queue => page::queue::initial_orders(),
            PageKind::NotFound => Seq::empty(),
        }
    }

    /// Whether the page takes the notifications that the backend pushes: the
    /// player page does, no other.
    pub open spec fn wants_status_events(self) -> bool {
        self is Player
    }
}

impl Page {
    /// Which page this is.
    pub fn kind(&self) -> (kind: PageKind)
        ensures
            kind == self@.kind(),
    {
        match self {
            Page::Home => PageKind::Home,
            Page::Settings(_) => PageKind::Settings,
            Page::Player(_) => PageKind::Player,
            Page::Playlist(_) => PageKind::Playlist,
            Page::Queue(_) => PageKind::Queue,
            Page::NotFound => PageKind::NotFound,
        }
    }

    /// Whether the page takes the notifications that the backend pushes.
    pub fn wants_status_events(&self) -> (wanted: bool)
        ensures
            wanted == self@.wants_status_events(),
    {
        match self {
            Page::Player(_) => true,
            _ => false,
        }
    }

    /// The name of the page, by which the navigation marks the tab of the
    /// page that is shown.
    pub fn name(&self) -> (name: &'static str)
        ensures
            name@ == match self@.kind() {
                PageKind::Home => "Home"@,
                PageKind::Settings => "Settings"@,
                PageKind::Player => "Player"@,
                PageKind::Playlist => "Playlist"@,
                PageKind::Queue => "Queue"@,
                PageKind::NotFound => "NotFound"@,
            },
    {
        match self {
            Page::Home => "Home",
            Page::Settings(_) => "Settings",
            Page::Player(_) => "Player",
            Page::Playlist(_) => "Playlist",
            Page::Queue(_) => "Queue",
            Page::NotFound => "NotFound",
        }
    }

    /// Makes the page that the rest of the hash path of `url` names, and says
    /// what the page asks for.
    pub fn init(url: Url) -> (made: (Page, Vec<Effect>))
        ensures
            made.0@ == PageView::fresh(page_kind(remaining_hash_path(url))),
            made.1.deep_view() == PageView::fresh_orders(page_kind(remaining_hash_path(url))),
    {
        let mut url = url;
        let segments = remaining_hash_path_parts(&mut url);
        match resolve(&segments) {
            PageKind::Home => {
                let effects: Vec<Effect> = Vec::new();
                (Page::Home, effects)
            },
            PageKind::Settings => {
                let made = page::settings::init(url);
                (Page::Settings(made.0), made.1)
            },
            PageKind::Playlist => {
                let made = page::playlist::init(url);
                (Page::Playlist(made.0), made.1)
            },
            PageKind::Queue => {
                let made = page::queue::init(url);
                (Page::Queue(made.0), made.1)
            },
            PageKind::Player => {
                let made = page::player::init(url);
                (Page::Player(made.0), made.1)
            },
            PageKind::NotFound => {
                let effects: Vec<Effect> = Vec::new();
                (Page::NotFound, effects)
            },
        }
    }
}

/// The state of the client: where it was started, the page that is shown and
/// the session of the channel.
#[derive(Clone, Debug, PartialEq)]
pub struct Model {
    pub base_url: Url,
    pub page: Page,
    pub session: Session,
}

/// The state of the client, as the contracts see it.
pub struct ModelView {
    pub base_url: UrlView,
    pub page: PageView,
    pub session: SessionState,
}

impl DeepView for Model {
    type V = ModelView;

    open spec fn deep_view(&self) -> ModelView {
        ModelView { base_url: url_view(self.base_url), page: self.page@, session: self.session@ }
    }
}

impl View for Model {
    type V = ModelView;

    open spec fn view(&self) -> ModelView {
        self.deep_view()
    }
}

/// The signal that a message brings to the session of the channel, where it
/// is about the channel.
pub open spec fn signal_of(msg: MsgView) -> Option<Signal> {
    match msg {
        MsgView::WebSocketOpened => Some(Signal::Opened),
        MsgView::CloseWebSocket => Some(Signal::CloseRequested),
        MsgView::WebSocketClosed { event, jitter_ms } => Some(
            Signal::Closed { clean: event.was_clean, jitter_ms },
        ),
        MsgView::WebSocketFailed { jitter_ms } => Some(Signal::Failed { jitter_ms }),
        MsgView::ReconnectWebSocket(handle) => Some(Signal::TimerFired(handle)),
        _ => None,
    }
}

/// The actions of the session as effects, in their order.
pub open spec fn channel_orders(actions: Seq<Action>) -> Seq<EffectView> {
    actions.map_values(|action: Action| EffectView::Channel(action))
}

/// What the client does when it starts at `url`: it asks to be told of every
/// change of the location and reports the first location as one, makes the
/// first page, and opens the channel.
pub open spec fn initial_effects(url: UrlView) -> Seq<EffectView> {
    seq![EffectView::SubscribeUrlChanged, EffectView::Dispatch(MsgView::UrlChanged(url))]
        + PageView::fresh_orders(page_kind(url.remaining())) + seq![
        EffectView::Channel(Action::OpenChannel),
    ]
}

impl ModelView {
    /// The command that `msg` asks to send: `msg` is a page's own
    /// `SendCommand`, and that page is the one shown.
    pub open spec fn addressed_command(self, msg: MsgView) -> Option<CommandView> {
        match (msg, self.page) {
            (
                MsgView::Settings(page::settings::MsgView::SendCommand(command)),
                PageView::Settings(_),
            ) => Some(command),
            (
                MsgView::Player(page::player::MsgView::SendCommand(command)),
                PageView::Player(_),
            ) => Some(command),
            (
                MsgView::Playlist(page::playlist::MsgView::SendCommand(command)),
                PageView::Playlist(_),
            ) => Some(command),
            (
                MsgView::Queue(page::queue::MsgView::SendCommand(command)),
                PageView::Queue(_),
            ) => Some(command),
            _ => None,
        }
    }

    /// Whether `msg` is refused: it asks to send a command while the channel
    /// is not open.
    pub open spec fn refuses(self, msg: MsgView) -> bool {
        self.addressed_command(msg) is Some && !(self.session.status is Open)
    }

    /// The page after `msg`. A message of a page reaches that page only
    /// while it is the one shown, and a pushed notification the player page
    /// only; a change of the location makes a new page.
    pub open spec fn page_after(self, msg: MsgView) -> PageView {
        match (msg, self.page) {
            (MsgView::UrlChanged(url), _) => PageView::fresh(page_kind(url.remaining())),
            (MsgView::StatusChangeEventReceived(event), PageView::Player(model)) => {
                PageView::Player(
                    model.updated(page::player::MsgView::StatusChangeEventReceived(event)),
                )
            },
            (MsgView::Settings(msg), PageView::Settings(model)) => PageView::Settings(
                model.updated(msg),
            ),
            (MsgView::Player(msg), PageView::Player(model)) => PageView::Player(
                model.updated(msg),
            ),
            (MsgView::Playlist(msg), PageView::Playlist(model)) => PageView::Playlist(
                model.updated(msg),
            ),
            (MsgView::Queue(msg), PageView::Queue(model)) => PageView::Queue(model.updated(msg)),
            _ => self.page,
        }
    }

    /// What the page that `msg` reaches asks for.
    pub open spec fn page_orders(self, msg: MsgView) -> Seq<EffectView> {
        match (msg, self.page) {
            (MsgView::UrlChanged(url), _) => PageView::fresh_orders(page_kind(url.remaining())),
            (MsgView::StatusChangeEventReceived(event), PageView::Player(model)) => {
                model.orders(page::player::MsgView::StatusChangeEventReceived(event))
            },
            (MsgView::Settings(msg), PageView::Settings(model)) => model.orders(msg),
            (MsgView::Player(msg), PageView::Player(model)) => model.orders(msg),
            (MsgView::Playlist(msg), PageView::Playlist(model)) => model.orders(msg),
            (MsgView::Queue(msg), PageView::Queue(model)) => model.orders(msg),
            _ => Seq::empty(),
        }
    }

    /// The state after a message that is not refused.
    pub open spec fn updated(self, msg: MsgView) -> ModelView {
        ModelView {
            base_url: self.base_url,
            page: self.page_after(msg),
            session: match signal_of(msg) {
                Some(signal) => self.session.next(signal),
                None => self.session,
            },
        }
    }

    /// What a message that is not refused asks for, in order: what the
    /// session asks of the channel, the command to write, and what the page
    /// asks for.
    pub open spec fn effects(self, msg: MsgView) -> Seq<EffectView> {
        let of_channel = match signal_of(msg) {
            Some(signal) => channel_orders(self.session.actions(signal)),
            None => Seq::empty(),
        };
        let of_command = match self.addressed_command(msg) {
            Some(command) => seq![EffectView::SendJson(command)],
            None => Seq::empty(),
        };
        of_channel + of_command + self.page_orders(msg)
    }

    /// The state of a client that was started at `url`.
    pub open spec fn started_at(url: UrlView) -> ModelView {
        ModelView {
            base_url: url,
            page: PageView::fresh(page_kind(url.remaining())),
            session: SessionState::connecting(),
        }
    }
}

/// Starts the client at `url`.
pub fn init(url: Url) -> (made: (Model, Vec<Effect>))
    ensures
        made.0@ == ModelView::started_at(url_view(url)),
        made.1.deep_view() == initial_effects(url_view(url)),
{
    let mut effects: Vec<Effect> = Vec::new();
    effects.push(Effect::SubscribeUrlChanged);
    effects.push(Effect::Dispatch(Msg::UrlChanged(url.clone())));
    let base_url = url.to_base_url();
    let made = Page::init(url);
    let page = made.0;
    let mut orders = made.1;
    effects.append(&mut orders);
    effects.push(Effect::Channel(Action::OpenChannel));
    (Model { base_url, page, session: Session::open() }, effects)
}

/// The command dispatcher: a command is written to the channel if the
/// channel is open, and is refused otherwise. A refused command is dropped,
/// it is not kept for later.
pub fn send(session: &Session, command: Command) -> (written: Result<Effect, ChannelUnavailable>)
    ensures
        written is Ok <==> session@.status is Open,
        written is Ok ==> written->Ok_0@ == EffectView::SendJson(command@),
{
    if session.is_open() {
        Ok(Effect::SendJson(command))
    } else {
        Err(ChannelUnavailable)
    }
}

fn channel_effects(actions: Vec<Action>) -> (effects: Vec<Effect>)
    ensures
        effects.deep_view() == channel_orders(actions@),
{
    let mut effects: Vec<Effect> = Vec::new();
    let mut at: usize = 0;
    while at < actions.len()
        invariant
            at <= actions.len(),
            effects.len() == at,
            forall|k: int| 0 <= k < at ==> effects[k]@ == EffectView::Channel(actions[k]),
        decreases actions.len() - at,
    {
        effects.push(Effect::Channel(actions[at]));
        at = at + 1;
    }
    effects
}

fn tell_session(model: &mut Model, signal: Signal) -> (effects: Vec<Effect>)
    ensures
        final(model).session@ == old(model).session@.next(signal),
        final(model).page == old(model).page,
        final(model).base_url == old(model).base_url,
        effects.deep_view() == channel_orders(old(model).session@.actions(signal)),
{
    let actions = model.session.handle(signal);
    channel_effects(actions)
}

/// Takes a message in: changes the state and says what to do.
///
/// A message that asks to send a command while the channel is not open is
/// refused: the answer is `ChannelUnavailable` and nothing changes. Every
/// other message is taken.
pub fn update(msg: Msg, model: &mut Model) -> (outcome: Result<Vec<Effect>, ChannelUnavailable>)
    ensures
        outcome is Err <==> old(model)@.refuses(msg@),
        outcome is Err ==> final(model)@ == old(model)@,
        outcome is Ok ==> final(model)@ == old(model)@.updated(msg@),
        outcome is Ok ==> outcome->Ok_0.deep_view() == old(model)@.effects(msg@),
{
    let mut effects: Vec<Effect> = Vec::new();
    match msg {
        Msg::WebSocketOpened => {
            effects = tell_session(model, Signal::Opened);
        },
        Msg::CloseWebSocket => {
            effects = tell_session(model, Signal::CloseRequested);
        },
        Msg::WebSocketClosed { event, jitter_ms } => {
            effects = tell_session(model, Signal::Closed { clean: event.was_clean, jitter_ms });
        },
        Msg::WebSocketFailed { jitter_ms } => {
            effects = tell_session(model, Signal::Failed { jitter_ms });
        },
        Msg::ReconnectWebSocket(handle) => {
            effects = tell_session(model, Signal::TimerFired(handle));
        },
        Msg::UrlChanged(url) => {
            let made = Page::init(url);
            model.page = made.0;
            effects = made.1;
        },
        Msg::StatusChangeEventReceived(event) => {
            match &mut model.page {
                Page::Player(page_model) => {
                    effects =
                    page::player::update(
                        page::player::Msg::StatusChangeEventReceived(event),
                        page_model,
                    );
                },
                _ => {},
            }
        },
        Msg::Settings(msg) => {
            match &mut model.page {
                Page::Settings(page_model) => {
                    if let page::settings::Msg::SendCommand(command) = &msg {
                        match send(&model.session, command.copy()) {
                            Ok(effect) => {
                                effects.push(effect);
                            },
                            Err(unavailable) => {
                                return Err(unavailable);
                            },
                        }
                    }
                    let mut orders = page::settings::update(msg, page_model);
                    effects.append(&mut orders);
                },
                _ => {},
            }
        },
        Msg::Player(msg) => {
            match &mut model.page {
                Page::Player(page_model) => {
                    if let page::player::Msg::SendCommand(command) = &msg {
                        match send(&model.session, command.copy()) {
                            Ok(effect) => {
                                effects.push(effect);
                            },
                            Err(unavailable) => {
                                return Err(unavailable);
                            },
                        }
                    }
                    let mut orders = page::player::update(msg, page_model);
                    effects.append(&mut orders);
                },
                _ => {},
            }
        },
        Msg::Playlist(msg) => {
            match &mut model.page {
                Page::Playlist(page_model) => {
                    if let page::playlist::Msg::SendCommand(command) = &msg {
                        match send(&model.session, command.copy()) {
                            Ok(effect) => {
                                effects.push(effect);
                            },
                            Err(unavailable) => {
                                return Err(unavailable);
                            },
                        }
                    }
                    let mut orders = page::playlist::update(msg, page_model);
                    effects.append(&mut orders);
                },
                _ => {},
            }
        },
        Msg::Queue(msg) => {
            match &mut model.page {
                Page::Queue(page_model) => {
                    if let page::queue::Msg::SendCommand(command) = &msg {
                        match send(&model.session, command.copy()) {
                            Ok(effect) => {
                                effects.push(effect);
                            },
                            Err(unavailable) => {
                                return Err(unavailable);
                            },
                        }
                    }
                    let mut orders = page::queue::update(msg, page_model);
                    effects.append(&mut orders);
                },
                _ => {},
            }
        },
    }
    Ok(effects)
}

/// A frame that arrived on the channel. A text frame carries the
/// notification that was read from it, or `None` where the text was no
/// notification.
#[derive(Clone, Debug, PartialEq, Eq)]
pub enum Frame {
    Text(Option<StatusChangeEvent>),
    Binary,
}

/// The answer to a text frame that holds no notification.
#[derive(Clone, Copy, Debug, PartialEq, Eq, Structural)]
pub struct DecodeError;

/// Turns a frame into the message it brings. A text frame brings its
/// notification; one that holds none is answered with `DecodeError` and
/// brings nothing, and the channel stays as it is. A frame that is no text
/// brings nothing.
pub fn decode_message(frame: Frame) -> (decoded: Result<Option<Msg>, DecodeError>)
    ensures
        match frame {
            Frame::Text(Some(event)) => decoded matches Ok(Some(msg)) && msg@
                == MsgView::StatusChangeEventReceived(event@),
            Frame::Text(None) => decoded is Err,
            Frame::Binary => decoded matches Ok(None),
        },
{
    match frame {
        Frame::Text(Some(event)) => Ok(Some(Msg::StatusChangeEventReceived(event))),
        Frame::Text(None) => Err(DecodeError),
        Frame::Binary => Ok(None),
    }
}

/// The locations of the pages.
pub struct Urls {
    base_url: Url,
}

impl Urls {
    /// The location that the others are built on.
    pub closed spec fn base(self) -> Url {
        self.base_url
    }

    /// The locations below `base_url`.
    pub fn new(base_url: Url) -> (urls: Urls)
        ensures
            urls.base() == base_url,
    {
        Urls { base_url }
    }

    /// The location that the others are built on.
    pub fn base_url(self) -> (url: Url)
        ensures
            url == self.base(),
    {
        self.base_url
    }

    /// The settings page, below the base.
    pub fn settings(self) -> (url: Url)
        ensures
            hash_path(url) == hash_path(self.base()).push("settings"@),
            hash_path_cursor(url) == hash_path_cursor(self.base()),
    {
        add_hash_path_part(self.base_url, "settings")
    }

    /// The settings page.
    pub fn settings_abs() -> (url: Url)
        ensures
            remaining_hash_path(url) == seq!["settings"@],
            page_kind(remaining_hash_path(url)) == PageKind::Settings,
    {
        proof {
            crate::route::lemma_route_names();
        }
        let url = add_hash_path_part(Url::new(), "settings");
        url
    }

    /// The queue page.
    pub fn queue_abs() -> (url: Url)
        ensures
            remaining_hash_path(url) == seq!["queue"@],
            page_kind(remaining_hash_path(url)) == PageKind::Queue,
    {
        proof {
            crate::route::lemma_route_names();
        }
        let url = add_hash_path_part(Url::new(), "queue");
        url
    }

    /// The playlist page.
    pub fn playlist_abs() -> (url: Url)
        ensures
            remaining_hash_path(url) == seq!["playlist"@],
            page_kind(remaining_hash_path(url)) == PageKind::Playlist,
    {
        proof {
            crate::route::lemma_route_names();
        }
        let url = add_hash_path_part(Url::new(), "playlist");
        url
    }

    /// The player page.
    pub fn player_abs() -> (url: Url)
        ensures
            remaining_hash_path(url) == seq!["player"@],
            page_kind(remaining_hash_path(url)) == PageKind::Player,
    {
        proof {
            crate::route::lemma_route_names();
        }
        let url = add_hash_path_part(Url::new(), "player");
        url
    }
}

/// The page that a message is meant for, where it is meant for one: a page's
/// own messages for that page, a pushed notification for the player page.
pub open spec fn addressee(msg: MsgView) -> Option<PageKind> {
    match msg {
        MsgView::StatusChangeEventReceived(_) => Some(PageKind::Player),
        MsgView::Settings(_) => Some(PageKind::Settings),
        MsgView::Player(_) => Some(PageKind::Player),
        MsgView::Playlist(_) => Some(PageKind::Playlist),
        MsgView::Queue(_) => Some(PageKind::Queue),
        _ => None,
    }
}

/// A message that is meant for a page other than the one shown is dropped:
/// it is not refused, it changes nothing and asks for nothing. This holds of
/// a notification that arrives while another page than the player is shown,
/// and of the answer to a request of a page that was left meanwhile.
pub proof fn lemma_message_for_another_page_is_dropped(
    model: ModelView,
    msg: MsgView,
    kind: PageKind,
)
    requires
        addressee(msg) == Some(kind),
        model.page.kind() != kind,
    ensures
        !model.refuses(msg),
        model.updated(msg) == model,
        model.effects(msg) == Seq::<EffectView>::empty(),
{
}

/// A page that does not take the notifications of the backend is not changed
/// by one, and nothing is asked for on its behalf.
pub proof fn lemma_unwanted_event_is_dropped(model: ModelView, event: StatusChangeEventView)
    requires
        !model.page.wants_status_events(),
    ensures
        !model.refuses(MsgView::StatusChangeEventReceived(event)),
        model.updated(MsgView::StatusChangeEventReceived(event)) == model,
        model.effects(MsgView::StatusChangeEventReceived(event)) == Seq::<EffectView>::empty(),
{
}

/// A message that brings no signal of the channel leaves the session as it
/// is, and the place where the client was started too: the session changes by
/// the signals of the channel alone.
pub proof fn lemma_session_changes_by_signals_alone(model: ModelView, msg: MsgView)
    requires
        signal_of(msg) is None,
    ensures
        model.updated(msg).session == model.session,
        model.updated(msg).base_url == model.base_url,
{
}

/// A change of the location always makes the page anew: what the page held
/// before does not show in the page after, even where the location names the
/// same page again.
pub proof fn lemma_navigation_makes_a_fresh_page(model: ModelView, other: ModelView, url: UrlView)
    ensures
        model.updated(MsgView::UrlChanged(url)).page == other.updated(
            MsgView::UrlChanged(url),
        ).page,
        model.updated(MsgView::UrlChanged(url)).page == PageView::fresh(
            page_kind(url.remaining()),
        ),
        model.updated(MsgView::UrlChanged(url)).page.kind() == page_kind(url.remaining()),
        model.effects(MsgView::UrlChanged(url)) == PageView::fresh_orders(
            page_kind(url.remaining()),
        ),
{
}

} // verus!

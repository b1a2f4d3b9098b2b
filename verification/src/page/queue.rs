//! The queue page: the tracks that are lined up to play.

use crate::models::player::{Command, CommandView, Song, SongView};
use crate::request::{Request, RequestView};
use crate::{Effect, EffectView};
use seed::Url;
use vstd::prelude::*;

verus! {

/// The state of the queue page.
#[derive(Clone, Debug, PartialEq, Eq)]
pub struct Model {
    pub queue_items: Vec<Song>,
    pub waiting_response: bool,
}

/// The state of the queue page, its texts read as characters.
pub struct ModelView {
    pub queue_items: Seq<SongView>,
    pub waiting_response: bool,
}

impl DeepView for Model {
    type V = ModelView;

    open spec fn deep_view(&self) -> ModelView {
        ModelView {
            queue_items: self.queue_items.deep_view(),
            waiting_response: self.waiting_response,
        }
    }
}

impl View for Model {
    type V = ModelView;

    open spec fn view(&self) -> ModelView {
        self.deep_view()
    }
}

/// What the queue page is told.
#[derive(Clone, Debug, PartialEq, Eq)]
pub enum Msg {
    /// The answer to the request for the queue; `None` where the request
    /// failed.
    PlaylistItemsFetched(Option<Vec<Song>>),
    /// The user issued a command, and it was written to the channel.
    SendCommand(Command),
}

/// A message of the queue page, its texts read as characters.
pub enum MsgView {
    PlaylistItemsFetched(Option<Seq<SongView>>),
    SendCommand(CommandView),
}

impl DeepView for Msg {
    type V = MsgView;

    open spec fn deep_view(&self) -> MsgView {
        match self {
            Msg::PlaylistItemsFetched(items) => MsgView::PlaylistItemsFetched(items.deep_view()),
            Msg::SendCommand(command) => MsgView::SendCommand(command@),
        }
    }
}

impl View for Msg {
    type V = MsgView;

    open spec fn view(&self) -> MsgView {
        self.deep_view()
    }
}

/// The state of a queue page that was just made: no tracks yet, and waiting
/// for them.
pub open spec fn initial_model() -> ModelView {
    ModelView { queue_items: Seq::empty(), waiting_response: true }
}

/// What a queue page asks for when it is made: the queue.
pub open spec fn initial_orders() -> Seq<EffectView> {
    seq![EffectView::Fetch(RequestView::QueueItems)]
}

impl ModelView {
    /// The state after `msg`. An answer ends the waiting; where the request
    /// failed the tracks stay as they were.
    pub open spec fn updated(self, msg: MsgView) -> ModelView {
        match msg {
            MsgView::PlaylistItemsFetched(Some(items)) => ModelView {
                queue_items: items,
                waiting_response: false,
            },
            MsgView::PlaylistItemsFetched(None) => ModelView { waiting_response: false, ..self },
            MsgView::SendCommand(_) => self,
        }
    }

    /// What `msg` asks for: nothing.
    pub open spec fn orders(self, msg: MsgView) -> Seq<EffectView> {
        Seq::empty()
    }
}

/// Makes the queue page and asks for the queue.
pub fn init(_url: Url) -> (made: (Model, Vec<Effect>))
    ensures
        made.0@ == initial_model(),
        made.1.deep_view() == initial_orders(),
{
    let model = Model { queue_items: Vec::new(), waiting_response: true };
    let mut effects: Vec<Effect> = Vec::new();
    effects.push(Effect::Fetch(Request::QueueItems));
    assert(model.queue_items.deep_view() =~= Seq::empty());
    (model, effects)
}

/// Takes a message in: changes the page's state and says what to do.
pub fn update(msg: Msg, model: &mut Model) -> (effects: Vec<Effect>)
    ensures
        final(model)@ == old(model)@.updated(msg@),
        effects.deep_view() == old(model)@.orders(msg@),
{
    let effects: Vec<Effect> = Vec::new();
    match msg {
        Msg::PlaylistItemsFetched(Some(items)) => {
            model.waiting_response = false;
            model.queue_items = items;
        },
        Msg::PlaylistItemsFetched(None) => {
            model.waiting_response = false;
        },
        Msg::SendCommand(_) => {},
    }
    effects
}

/// The message of the user's "play this" on `song`: the command to play the
/// queue from the song's place.
pub fn play_item(song: &Song) -> (msg: Msg)
    ensures
        msg@ == MsgView::SendCommand(CommandView::PlayAt(song@.queue_position())),
{
    Msg::SendCommand(Command::PlayAt(song.queue_position()))
}

} // verus!

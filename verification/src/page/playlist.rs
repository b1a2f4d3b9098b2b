//! The playlist page: the saved playlists and the tracks of the chosen one.

use crate::models::player::{Command, CommandView, Song, SongView};
use crate::models::playlist::{Playlist, PlaylistView};
use crate::request::{Request, RequestView};
use crate::{Effect, EffectView};
use seed::Url;
use vstd::prelude::*;

verus! {

/// The state of the playlist page.
#[derive(Clone, Debug, PartialEq, Eq)]
pub struct Model {
    pub playlists: Vec<Playlist>,
    pub playlist_items: Vec<Song>,
    pub selected_playlist_id: Option<String>,
    pub waiting_response: bool,
}

/// The state of the playlist page, its texts read as characters.
pub struct ModelView {
    pub playlists: Seq<PlaylistView>,
    pub playlist_items: Seq<SongView>,
    pub selected_playlist_id: Option<Seq<char>>,
    pub waiting_response: bool,
}

impl DeepView for Model {
    type V = ModelView;

    open spec fn deep_view(&self) -> ModelView {
        ModelView {
            playlists: self.playlists.deep_view(),
            playlist_items: self.playlist_items.deep_view(),
            selected_playlist_id: self.selected_playlist_id.deep_view(),
            waiting_response: self.waiting_response,
        }
    }
}

impl View for Model {
    type V = ModelView;

    open spec fn view(&self) -> ModelView {
        self.deep_view()
    }
}

/// What the playlist page is told.
#[derive(Clone, Debug, PartialEq, Eq)]
pub enum Msg {
    /// The answer to the request for the playlists; `None` where it failed.
    PlaylistsFetched(Option<Vec<Playlist>>),
    /// The answer to the request for a playlist's tracks; `None` where it
    /// failed.
    PlaylistItemsFetched(Option<Vec<Song>>),
    /// The user issued a command, and it was written to the channel.
    SendCommand(Command),
    /// The user chose a playlist.
    SelectPlaylist(String),
    /// The user asked to play the chosen playlist.
    LoadPlaylistIntoQueue,
}

/// A message of the playlist page, its texts read as characters.
pub enum MsgView {
    PlaylistsFetched(Option<Seq<PlaylistView>>),
    PlaylistItemsFetched(Option<Seq<SongView>>),
    SendCommand(CommandView),
    SelectPlaylist(Seq<char>),
    LoadPlaylistIntoQueue,
}

impl DeepView for Msg {
    type V = MsgView;

    open spec fn deep_view(&self) -> MsgView {
        match self {
            Msg::PlaylistsFetched(playlists) => MsgView::PlaylistsFetched(playlists.deep_view()),
            Msg::PlaylistItemsFetched(items) => MsgView::PlaylistItemsFetched(items.deep_view()),
            Msg::SendCommand(command) => MsgView::SendCommand(command@),
            Msg::SelectPlaylist(id) => MsgView::SelectPlaylist(id@),
            Msg::LoadPlaylistIntoQueue => MsgView::LoadPlaylistIntoQueue,
        }
    }
}

impl View for Msg {
    type V = MsgView;

    open spec fn view(&self) -> MsgView {
        self.deep_view()
    }
}

/// The state of a playlist page that was just made.
pub open spec fn initial_model() -> ModelView {
    ModelView {
        playlists: Seq::empty(),
        playlist_items: Seq::empty(),
        selected_playlist_id: None,
        waiting_response: false,
    }
}

/// What a playlist page asks for when it is made: the saved playlists.
pub open spec fn initial_orders() -> Seq<EffectView> {
    seq![EffectView::Fetch(RequestView::Playlists)]
}

impl ModelView {
    /// The state after `msg`. Where a request failed, what it asked for
    /// stays as it was.
    pub open spec fn updated(self, msg: MsgView) -> ModelView {
        match msg {
            MsgView::PlaylistsFetched(Some(playlists)) => ModelView { playlists, ..self },
            MsgView::PlaylistsFetched(None) => self,
            MsgView::SelectPlaylist(id) => ModelView {
                waiting_response: true,
                selected_playlist_id: Some(id),
                ..self
            },
            MsgView::SendCommand(_) => self,
            MsgView::PlaylistItemsFetched(Some(items)) => ModelView {
                waiting_response: false,
                playlist_items: items,
                ..self
            },
            MsgView::PlaylistItemsFetched(None) => ModelView { waiting_response: false, ..self },
            MsgView::LoadPlaylistIntoQueue => self,
        }
    }

    /// What `msg` asks for: the tracks of a playlist that was chosen, and the
    /// command that loads the chosen playlist into the queue.
    pub open spec fn orders(self, msg: MsgView) -> Seq<EffectView> {
        match msg {
            MsgView::SelectPlaylist(id) => seq![EffectView::Fetch(RequestView::PlaylistItems(id))],
            MsgView::LoadPlaylistIntoQueue => match self.selected_playlist_id {
                Some(id) => seq![
                    EffectView::Dispatch(
                        crate::MsgView::Playlist(
                            MsgView::SendCommand(CommandView::LoadPlaylist(id)),
                        ),
                    ),
                ],
                None => Seq::empty(),
            },
            _ => Seq::empty(),
        }
    }
}

/// Makes the playlist page and asks for the saved playlists.
pub fn init(_url: Url) -> (made: (Model, Vec<Effect>))
    ensures
        made.0@ == initial_model(),
        made.1.deep_view() == initial_orders(),
{
    let model = Model {
        playlists: Vec::new(),
        playlist_items: Vec::new(),
        selected_playlist_id: None,
        waiting_response: false,
    };
    let mut effects: Vec<Effect> = Vec::new();
    effects.push(Effect::Fetch(Request::Playlists));
    assert(model.playlists.deep_view() =~= Seq::empty());
    assert(model.playlist_items.deep_view() =~= Seq::empty());
    (model, effects)
}

/// Takes a message in: changes the page's state and says what to do.
pub fn update(msg: Msg, model: &mut Model) -> (effects: Vec<Effect>)
    ensures
        final(model)@ == old(model)@.updated(msg@),
        effects.deep_view() == old(model)@.orders(msg@),
{
    let mut effects: Vec<Effect> = Vec::new();
    match msg {
        Msg::PlaylistsFetched(Some(playlists)) => {
            model.playlists = playlists;
        },
        Msg::PlaylistsFetched(None) => {},
        Msg::SelectPlaylist(id) => {
            effects.push(Effect::Fetch(Request::PlaylistItems(id.clone())));
            model.waiting_response = true;
            model.selected_playlist_id = Some(id);
        },
        Msg::SendCommand(_) => {},
        Msg::PlaylistItemsFetched(Some(items)) => {
            model.waiting_response = false;
            model.playlist_items = items;
        },
        Msg::PlaylistItemsFetched(None) => {
            model.waiting_response = false;
        },
        Msg::LoadPlaylistIntoQueue => {
            match &model.selected_playlist_id {
                Some(id) => {
                    effects.push(
                        Effect::Dispatch(
                            crate::Msg::Playlist(
                                Msg::SendCommand(Command::LoadPlaylist(id.clone())),
                            ),
                        ),
                    );
                },
                None => {},
            }
        },
    }
    effects
}

} // verus!

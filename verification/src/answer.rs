//! From the answer to a request to the message that reports it.
//!
//! The shell makes the requests and reads the answers; which message an
//! answer becomes, and what a failed request becomes, is decided here.

use crate::models::player::{LastStatus, LastStatusView, Song, SongView};
use crate::models::playlist::{Playlist, PlaylistView};
use crate::models::settings::{Settings, SettingsView};
use crate::models::spotify::{SpotifyAccountInfo, SpotifyAccountInfoView};
use crate::page::player::{cover_of, update_album_cover, AlbumInfo, AlbumInfoView};
use crate::request::{Request, RequestView};
use crate::{Msg, MsgView};
use vstd::prelude::*;

verus! {

/// What was read from the answer to a request.
#[derive(Clone, Debug, PartialEq, Eq)]
pub enum Answer {
    Status(LastStatus),
    Playlists(Vec<Playlist>),
    Songs(Vec<Song>),
    Settings(Settings),
    Text(String),
    Account(SpotifyAccountInfo),
    Album(AlbumInfo),
}

/// An answer, its texts read as characters.
pub enum AnswerView {
    Status(LastStatusView),
    Playlists(Seq<PlaylistView>),
    Songs(Seq<SongView>),
    Settings(SettingsView),
    Text(Seq<char>),
    Account(SpotifyAccountInfoView),
    Album(AlbumInfoView),
}

impl DeepView for Answer {
    type V = AnswerView;

    open spec fn deep_view(&self) -> AnswerView {
        match self {
            Answer::Status(status) => AnswerView::Status(status@),
            Answer::Playlists(playlists) => AnswerView::Playlists(playlists.deep_view()),
            Answer::Songs(songs) => AnswerView::Songs(songs.deep_view()),
            Answer::Settings(settings) => AnswerView::Settings(settings@),
            Answer::Text(text) => AnswerView::Text(text@),
            Answer::Account(account) => AnswerView::Account(account@),
            Answer::Album(album) => AnswerView::Album(album@),
        }
    }
}

impl View for Answer {
    type V = AnswerView;

    open spec fn view(&self) -> AnswerView {
        self.deep_view()
    }
}

impl RequestView {
    /// The message that reports `answer` to the page that made the request;
    /// `None` stands for a request that failed, and so does an answer of
    /// another shape than the request asks for: the status for the current
    /// status, playlists for the playlists, songs for the tracks of a
    /// playlist or of the queue, settings for the configuration and for
    /// storing it, text for the two questions about the use of the Spotify
    /// account, the account for the account, the album for the lookup.
    ///
    /// Where a page shows lists, a cover or the outcome of a save, a failure
    /// is reported too, so that the page stops waiting. A failed request for
    /// the configuration or for anything of the Spotify account is not
    /// reported: the page goes on with what it has.
    pub open spec fn reported(self, answer: Option<AnswerView>) -> Option<MsgView> {
        match self {
            RequestView::CurrentStatus => Some(
                MsgView::Player(
                    crate::page::player::MsgView::CurrentStatusFetched(
                        match answer {
                            Some(AnswerView::Status(status)) => Some(status),
                            _ => None,
                        },
                    ),
                ),
            ),
            RequestView::Playlists => Some(
                MsgView::Playlist(
                    crate::page::playlist::MsgView::PlaylistsFetched(
                        match answer {
                            Some(AnswerView::Playlists(playlists)) => Some(playlists),
                            _ => None,
                        },
                    ),
                ),
            ),
            RequestView::PlaylistItems(_) => Some(
                MsgView::Playlist(
                    crate::page::playlist::MsgView::PlaylistItemsFetched(
                        match answer {
                            Some(AnswerView::Songs(songs)) => Some(songs),
                            _ => None,
                        },
                    ),
                ),
            ),
            RequestView::QueueItems => Some(
                MsgView::Queue(
                    crate::page::queue::MsgView::PlaylistItemsFetched(
                        match answer {
                            Some(AnswerView::Songs(songs)) => Some(songs),
                            _ => None,
                        },
                    ),
                ),
            ),
            RequestView::Settings => match answer {
                Some(AnswerView::Settings(settings)) => Some(
                    MsgView::Settings(crate::page::settings::MsgView::RemoteConfiguration(settings)),
                ),
                _ => None,
            },
            RequestView::SaveSettings(_) => Some(
                MsgView::Settings(
                    crate::page::settings::MsgView::SettingsSaved(
                        match answer {
                            Some(AnswerView::Settings(settings)) => Some(settings),
                            _ => None,
                        },
                    ),
                ),
            ),
            RequestView::SpotifyIsAuthorized => match answer {
                Some(AnswerView::Text(text)) => Some(
                    MsgView::Settings(
                        crate::page::settings::MsgView::SpotifyIsAuthorizedFetched(text),
                    ),
                ),
                _ => None,
            },
            RequestView::SpotifyAuthorizationUrl => match answer {
                Some(AnswerView::Text(text)) => Some(
                    MsgView::Settings(
                        crate::page::settings::MsgView::SpotifyAuthorizationUrlFetched(text),
                    ),
                ),
                _ => None,
            },
            RequestView::SpotifyAccountInfo => match answer {
                Some(AnswerView::Account(account)) => Some(
                    MsgView::Settings(
                        crate::page::settings::MsgView::SpotifyAccountInfoFetched(account),
                    ),
                ),
                _ => None,
            },
            RequestView::AlbumInfo { album, artist } => Some(
                MsgView::Player(
                    crate::page::player::MsgView::AlbumImageUpdated(
                        cover_of(
                            match answer {
                                Some(AnswerView::Album(info)) => Some(info),
                                _ => None,
                            },
                        ),
                    ),
                ),
            ),
        }
    }
}

impl Request {
    /// The message that reports `answer` to the page that made the request.
    pub fn reported(&self, answer: Option<Answer>) -> (msg: Option<Msg>)
        ensures
            msg.deep_view() == self@.reported(answer.deep_view()),
    {
        match self {
            Request::CurrentStatus => {
                let status = match answer {
                    Some(Answer::Status(status)) => Some(status),
                    _ => None,
                };
                Some(Msg::Player(crate::page::player::Msg::CurrentStatusFetched(status)))
            },
            Request::Playlists => {
                let playlists = match answer {
                    Some(Answer::Playlists(playlists)) => Some(playlists),
                    _ => None,
                };
                Some(Msg::Playlist(crate::page::playlist::Msg::PlaylistsFetched(playlists)))
            },
            Request::PlaylistItems(_) => {
                let songs = match answer {
                    Some(Answer::Songs(songs)) => Some(songs),
                    _ => None,
                };
                Some(Msg::Playlist(crate::page::playlist::Msg::PlaylistItemsFetched(songs)))
            },
            Request::QueueItems => {
                let songs = match answer {
                    Some(Answer::Songs(songs)) => Some(songs),
                    _ => None,
                };
                Some(Msg::Queue(crate::page::queue::Msg::PlaylistItemsFetched(songs)))
            },
            Request::Settings => match answer {
                Some(Answer::Settings(settings)) => Some(
                    Msg::Settings(crate::page::settings::Msg::RemoteConfiguration(settings)),
                ),
                _ => None,
            },
            Request::SaveSettings(_) => {
                let saved = match answer {
                    Some(Answer::Settings(settings)) => Some(settings),
                    _ => None,
                };
                Some(Msg::Settings(crate::page::settings::Msg::SettingsSaved(saved)))
            },
            Request::SpotifyIsAuthorized => match answer {
                Some(Answer::Text(text)) => Some(
                    Msg::Settings(crate::page::settings::Msg::SpotifyIsAuthorizedFetched(text)),
                ),
                _ => None,
            },
            Request::SpotifyAuthorizationUrl => match answer {
                Some(Answer::Text(text)) => Some(
                    Msg::Settings(crate::page::settings::Msg::SpotifyAuthorizationUrlFetched(text)),
                ),
                _ => None,
            },
            Request::SpotifyAccountInfo => match answer {
                Some(Answer::Account(account)) => Some(
                    Msg::Settings(crate::page::settings::Msg::SpotifyAccountInfoFetched(account)),
                ),
                _ => None,
            },
            Request::AlbumInfo { album, artist } => {
                let info = match answer {
                    Some(Answer::Album(info)) => Some(info),
                    _ => None,
                };
                Some(Msg::Player(update_album_cover(info)))
            },
        }
    }
}

} // verus!

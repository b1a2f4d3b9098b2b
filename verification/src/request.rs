//! The requests that the pages make of the backend over HTTP, and the one
//! that looks an album's cover up elsewhere.

use crate::models::settings::{Settings, SettingsView};
use crate::text::join;
use vstd::prelude::*;

verus! {

/// How a request is made.
#[derive(Clone, Copy, Debug, PartialEq, Eq, Structural)]
pub enum Method {
    Get,
    Post,
}

/// A request. The answer comes back to the page that asked as one of its
/// messages; where a request fails, what it asked for stays as it was.
#[derive(Clone, Debug, PartialEq, Eq)]
pub enum Request {
    /// What the player is doing right now.
    CurrentStatus,
    /// The saved playlists.
    Playlists,
    /// The tracks of one saved playlist.
    PlaylistItems(String),
    /// The tracks in the queue.
    QueueItems,
    /// The configuration.
    Settings,
    /// Stores the configuration.
    SaveSettings(Settings),
    /// Whether the backend may use the Spotify account.
    SpotifyIsAuthorized,
    /// Where the user can allow that use.
    SpotifyAuthorizationUrl,
    /// The Spotify account.
    SpotifyAccountInfo,
    /// The cover of an album, looked up by album and artist.
    AlbumInfo { album: String, artist: String },
}

/// A request, its texts read as characters.
pub enum RequestView {
    CurrentStatus,
    Playlists,
    PlaylistItems(Seq<char>),
    QueueItems,
    Settings,
    SaveSettings(SettingsView),
    SpotifyIsAuthorized,
    SpotifyAuthorizationUrl,
    SpotifyAccountInfo,
    AlbumInfo { album: Seq<char>, artist: Seq<char> },
}

impl DeepView for Request {
    type V = RequestView;

    open spec fn deep_view(&self) -> RequestView {
        match self {
            Request::CurrentStatus => RequestView::CurrentStatus,
            Request::Playlists => RequestView::Playlists,
            Request::PlaylistItems(id) => RequestView::PlaylistItems(id@),
            Request::QueueItems => RequestView::QueueItems,
            Request::Settings => RequestView::Settings,
            Request::SaveSettings(settings) => RequestView::SaveSettings(settings@),
            Request::SpotifyIsAuthorized => RequestView::SpotifyIsAuthorized,
            Request::SpotifyAuthorizationUrl => RequestView::SpotifyAuthorizationUrl,
            Request::SpotifyAccountInfo => RequestView::SpotifyAccountInfo,
            Request::AlbumInfo { album, artist } => RequestView::AlbumInfo {
                album: album@,
                artist: artist@,
            },
        }
    }
}

impl View for Request {
    type V = RequestView;

    open spec fn view(&self) -> RequestView {
        self.deep_view()
    }
}

/// Where the album lookup is asked, up to the album's name.
pub open spec fn album_lookup_prefix() -> Seq<char> {
    "http://ws.audioscrobbler.com/2.0/?method=album.getinfo&album="@
}

/// The address of the album lookup for `album` by `artist`, asked with
/// `api_key`.
pub open spec fn album_lookup_url(album: Seq<char>, artist: Seq<char>, api_key: Seq<char>) -> Seq<
    char,
> {
    album_lookup_prefix() + album + "&artist="@ + artist + "&api_key="@ + api_key
        + "&format=json"@
}

impl RequestView {
    /// How the request is made: only storing the configuration posts.
    pub open spec fn method(self) -> Method {
        match self {
            RequestView::SaveSettings(_) => Method::Post,
            _ => Method::Get,
        }
    }

    /// The address that the request goes to. `api_key` is used by the album
    /// lookup alone.
    pub open spec fn address(self, api_key: Seq<char>) -> Seq<char> {
        match self {
            RequestView::CurrentStatus => "/api/status"@,
            RequestView::Playlists => "/api/playlists"@,
            RequestView::PlaylistItems(id) => "/api/playlist/"@ + id,
            RequestView::QueueItems => "/api/queue"@,
            RequestView::Settings => "/api/settings"@,
            RequestView::SaveSettings(_) => "/api/settings"@,
            RequestView::SpotifyIsAuthorized => "/api/spotify/is-authorized"@,
            RequestView::SpotifyAuthorizationUrl => "/api/spotify/get-url"@,
            RequestView::SpotifyAccountInfo => "/api/spotify/me"@,
            RequestView::AlbumInfo { album, artist } => album_lookup_url(album, artist, api_key),
        }
    }
}

impl Request {
    /// How the request is made.
    pub fn method(&self) -> (method: Method)
        ensures
            method == self@.method(),
    {
        match self {
            Request::SaveSettings(_) => Method::Post,
            _ => Method::Get,
        }
    }

    /// The address that the request goes to.
    pub fn address(&self, api_key: &str) -> (address: String)
        ensures
            address@ == self@.address(api_key@),
    {
        match self {
            Request::CurrentStatus => "/api/status".to_owned(),
            Request::Playlists => "/api/playlists".to_owned(),
            Request::PlaylistItems(id) => join("/api/playlist/", id.as_str()),
            Request::QueueItems => "/api/queue".to_owned(),
            Request::Settings => "/api/settings".to_owned(),
            Request::SaveSettings(_) => "/api/settings".to_owned(),
            Request::SpotifyIsAuthorized => "/api/spotify/is-authorized".to_owned(),
            Request::SpotifyAuthorizationUrl => "/api/spotify/get-url".to_owned(),
            Request::SpotifyAccountInfo => "/api/spotify/me".to_owned(),
            Request::AlbumInfo { album, artist } => {
                let mut address = join(
                    "http://ws.audioscrobbler.com/2.0/?method=album.getinfo&album=",
                    album.as_str(),
                );
                address.append("&artist=");
                address.append(artist.as_str());
                address.append("&api_key=");
                address.append(api_key);
                address.append("&format=json");
                address
            },
        }
    }
}

} // verus!

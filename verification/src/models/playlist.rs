//! Saved playlists.

use vstd::prelude::*;

verus! {

/// A saved playlist, by the name under which the backend keeps it.
#[derive(Clone, Debug, PartialEq, Eq)]
pub struct Playlist {
    pub id: String,
    pub name: String,
}

/// A playlist, its texts read as characters.
pub struct PlaylistView {
    pub id: Seq<char>,
    pub name: Seq<char>,
}

impl DeepView for Playlist {
    type V = PlaylistView;

    open spec fn deep_view(&self) -> PlaylistView {
        PlaylistView { id: self.id@, name: self.name@ }
    }
}

impl View for Playlist {
    type V = PlaylistView;

    open spec fn view(&self) -> PlaylistView {
        self.deep_view()
    }
}

} // verus!

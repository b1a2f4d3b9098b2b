//! The page router: from the segments of a location to the page they name.

use crate::text::same;
use vstd::prelude::*;

verus! {

/// The pages of the client.
#[derive(Clone, Copy, Debug, PartialEq, Eq, Structural)]
pub enum PageKind {
    Home,
    Settings,
    Player,
    Playlist,
    Queue,
    NotFound,
}

/// The page that `segments` name. No segments, or the one segment `player`,
/// name the player; `settings`, `playlist` and `queue` name their pages;
/// `setup`, the mark of a first run, names the home page. Anything else is
/// not found.
pub open spec fn page_kind(segments: Seq<Seq<char>>) -> PageKind {
    if segments.len() == 0 {
        PageKind::Player
    } else if segments.len() == 1 {
        if segments[0] == "setup"@ {
            PageKind::Home
        } else if segments[0] == "settings"@ {
            PageKind::Settings
        } else if segments[0] == "playlist"@ {
            PageKind::Playlist
        } else if segments[0] == "queue"@ {
            PageKind::Queue
        } else if segments[0] == "player"@ {
            PageKind::Player
        } else {
            PageKind::NotFound
        }
    } else {
        PageKind::NotFound
    }
}

/// The page that `segments` name. Every list of segments names one page, and
/// the same list always the same.
pub fn resolve(segments: &Vec<String>) -> (kind: PageKind)
    ensures
        kind == page_kind(segments.deep_view()),
{
    if segments.len() == 0 {
        PageKind::Player
    } else if segments.len() == 1 {
        let part = segments[0].as_str();
        if same(part, "setup") {
            PageKind::Home
        } else if same(part, "settings") {
            PageKind::Settings
        } else if same(part, "playlist") {
            PageKind::Playlist
        } else if same(part, "queue") {
            PageKind::Queue
        } else if same(part, "player") {
            PageKind::Player
        } else {
            PageKind::NotFound
        }
    } else {
        PageKind::NotFound
    }
}

/// The names of the pages differ from one another, so each of them leads to
/// its own page.
pub proof fn lemma_route_names()
    ensures
        page_kind(seq!["setup"@]) == PageKind::Home,
        page_kind(seq!["settings"@]) == PageKind::Settings,
        page_kind(seq!["playlist"@]) == PageKind::Playlist,
        page_kind(seq!["queue"@]) == PageKind::Queue,
        page_kind(seq!["player"@]) == PageKind::Player,
        page_kind(Seq::empty()) == PageKind::Player,
{
    reveal_strlit("setup");
    reveal_strlit("settings");
    reveal_strlit("playlist");
    reveal_strlit("queue");
    reveal_strlit("player");
    assert("settings"@.len() != "setup"@.len());
    assert("playlist"@[0] != "setup"@[0]);
    assert("queue"@[0] != "setup"@[0]);
    assert("player"@[0] != "setup"@[0]);
    assert("playlist"@[0] != "settings"@[0]);
    assert("queue"@[0] != "settings"@[0]);
    assert("player"@[0] != "settings"@[0]);
    assert("queue"@[0] != "playlist"@[0]);
    assert("player"@.len() != "playlist"@.len());
    assert("player"@[0] != "queue"@[0]);
}

} // verus!

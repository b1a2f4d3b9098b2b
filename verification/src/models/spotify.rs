//! The Spotify account that the backend is connected to.

use vstd::prelude::*;

verus! {

/// What is shown of the connected account.
#[derive(Clone, Debug, PartialEq, Eq)]
pub struct SpotifyAccountInfo {
    pub display_name: Option<String>,
    pub image_url: Option<String>,
}

/// The account, its texts read as characters.
pub struct SpotifyAccountInfoView {
    pub display_name: Option<Seq<char>>,
    pub image_url: Option<Seq<char>>,
}

impl DeepView for SpotifyAccountInfo {
    type V = SpotifyAccountInfoView;

    open spec fn deep_view(&self) -> SpotifyAccountInfoView {
        SpotifyAccountInfoView {
            display_name: self.display_name.deep_view(),
            image_url: self.image_url.deep_view(),
        }
    }
}

impl View for SpotifyAccountInfo {
    type V = SpotifyAccountInfoView;

    open spec fn view(&self) -> SpotifyAccountInfoView {
        self.deep_view()
    }
}

} // verus!

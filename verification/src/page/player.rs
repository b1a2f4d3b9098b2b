//! The player page: the track that plays, the state of the player and of the
//! streamer.

use crate::models::player::{
    AudioOut, Command, CommandView, DacStatus, FilterType, LastStatus, LastStatusView, PlayerInfo,
    PlayerType, Song, SongView, StatusChangeEvent, StatusChangeEventView, StreamerStatus,
};
use crate::number::{bounded_decimal, decimal, decimal_text, parse_u8};
use crate::request::{Request, RequestView};
use crate::text::{join, same};
use crate::{Effect, EffectView};
use seed::Url;
use vstd::prelude::*;

verus! {

/// One picture of an album's cover: its size class and its address.
#[derive(Clone, Debug, PartialEq, Eq)]
pub struct Image {
    pub size: String,
    pub text: String,
}

/// A picture, its texts read as characters.
pub struct ImageView {
    pub size: Seq<char>,
    pub text: Seq<char>,
}

impl DeepView for Image {
    type V = ImageView;

    open spec fn deep_view(&self) -> ImageView {
        ImageView { size: self.size@, text: self.text@ }
    }
}

impl View for Image {
    type V = ImageView;

    open spec fn view(&self) -> ImageView {
        self.deep_view()
    }
}

/// The pictures of an album's cover.
#[derive(Clone, Debug, PartialEq, Eq)]
pub struct Album {
    pub image: Vec<Image>,
}

/// The pictures, their texts read as characters.
pub struct AlbumView {
    pub image: Seq<ImageView>,
}

impl DeepView for Album {
    type V = AlbumView;

    open spec fn deep_view(&self) -> AlbumView {
        AlbumView { image: self.image.deep_view() }
    }
}

impl View for Album {
    type V = AlbumView;

    open spec fn view(&self) -> AlbumView {
        self.deep_view()
    }
}

/// The answer of the album lookup.
#[derive(Clone, Debug, PartialEq, Eq)]
pub struct AlbumInfo {
    pub album: Album,
}

/// The answer, its texts read as characters.
pub struct AlbumInfoView {
    pub album: AlbumView,
}

impl DeepView for AlbumInfo {
    type V = AlbumInfoView;

    open spec fn deep_view(&self) -> AlbumInfoView {
        AlbumInfoView { album: self.album@ }
    }
}

impl View for AlbumInfo {
    type V = AlbumInfoView;

    open spec fn view(&self) -> AlbumInfoView {
        self.deep_view()
    }
}

/// The state of the player page.
#[derive(Clone, Debug, PartialEq, Eq)]
pub struct Model {
    pub streamer_status: StreamerStatus,
    pub player_info: Option<PlayerInfo>,
    pub current_track_info: Option<Song>,
    pub waiting_response: bool,
    pub remote_error: Option<String>,
}

/// The state of the player page, its texts read as characters.
pub struct ModelView {
    pub streamer_status: StreamerStatus,
    pub player_info: Option<PlayerInfo>,
    pub current_track_info: Option<SongView>,
    pub waiting_response: bool,
    pub remote_error: Option<Seq<char>>,
}

impl DeepView for Model {
    type V = ModelView;

    open spec fn deep_view(&self) -> ModelView {
        ModelView {
            streamer_status: self.streamer_status,
            player_info: self.player_info,
            current_track_info: self.current_track_info.deep_view(),
            waiting_response: self.waiting_response,
            remote_error: self.remote_error.deep_view(),
        }
    }
}

impl View for Model {
    type V = ModelView;

    open spec fn view(&self) -> ModelView {
        self.deep_view()
    }
}

/// What the player page is told.
#[derive(Clone, Debug, PartialEq, Eq)]
pub enum Msg {
    /// The backend pushed a notification.
    StatusChangeEventReceived(StatusChangeEvent),
    /// The cover to show for the current track.
    AlbumImageUpdated(Image),
    /// The user issued a command, and it was written to the channel.
    SendCommand(Command),
    /// The answer to the request for the current status; `None` where the
    /// request failed.
    CurrentStatusFetched(Option<LastStatus>),
}

/// A message of the player page, its texts read as characters.
pub enum MsgView {
    StatusChangeEventReceived(StatusChangeEventView),
    AlbumImageUpdated(ImageView),
    SendCommand(CommandView),
    CurrentStatusFetched(Option<LastStatusView>),
}

impl DeepView for Msg {
    type V = MsgView;

    open spec fn deep_view(&self) -> MsgView {
        match self {
            Msg::StatusChangeEventReceived(event) => MsgView::StatusChangeEventReceived(event@),
            Msg::AlbumImageUpdated(image) => MsgView::AlbumImageUpdated(image@),
            Msg::SendCommand(command) => MsgView::SendCommand(command@),
            Msg::CurrentStatusFetched(status) => MsgView::CurrentStatusFetched(
                status.deep_view(),
            ),
        }
    }
}

impl View for Msg {
    type V = MsgView;

    open spec fn view(&self) -> MsgView {
        self.deep_view()
    }
}

/// The picture that stands in where an album has no cover to show.
pub open spec fn placeholder_image() -> ImageView {
    ImageView { size: "mega"@, text: "/no_album.png"@ }
}

/// Whether a picture can serve as the cover: it is of the largest size class
/// and has an address.
pub open spec fn is_cover(image: ImageView) -> bool {
    image.size == "mega"@ && image.text.len() > 0
}

/// The first of `images` that can serve as the cover.
pub open spec fn first_cover(images: Seq<ImageView>) -> Option<ImageView>
    decreases images.len(),
{
    if images.len() == 0 {
        None
    } else if is_cover(images[0]) {
        Some(images[0])
    } else {
        first_cover(images.drop_first())
    }
}

/// What the first cover is: where there is one, no picture before it can
/// serve as the cover; where there is none, no picture can.
pub proof fn lemma_first_cover(images: Seq<ImageView>)
    ensures
        match first_cover(images) {
            Some(image) => exists|at: int|
                0 <= at < images.len() && #[trigger] images[at] == image && is_cover(image)
                    && forall|before: int| 0 <= before < at ==> !is_cover(#[trigger] images[before]),
            None => forall|at: int| 0 <= at < images.len() ==> !is_cover(#[trigger] images[at]),
        },
    decreases images.len(),
{
    if images.len() > 0 && !is_cover(images[0]) {
        let rest = images.drop_first();
        lemma_first_cover(rest);
        match first_cover(rest) {
            Some(image) => {
                let at = choose|at: int|
                    0 <= at < rest.len() && #[trigger] rest[at] == image && is_cover(image)
                        && forall|before: int|
                        0 <= before < at ==> !is_cover(#[trigger] rest[before]);
                assert(images[at + 1] == image);
                assert forall|before: int| 0 <= before < at + 1 implies !is_cover(
                    #[trigger] images[before],
                ) by {
                    if before > 0 {
                        assert(rest[before - 1] == images[before]);
                    }
                }
            },
            None => {
                assert forall|at: int| 0 <= at < images.len() implies !is_cover(
                    #[trigger] images[at],
                ) by {
                    if at > 0 {
                        assert(rest[at - 1] == images[at]);
                    }
                }
            },
        }
    }
}

/// The cover to show once the album lookup has answered with `info`, or has
/// failed (`None`).
pub open spec fn cover_of(info: Option<AlbumInfoView>) -> ImageView {
    match info {
        Some(info) => match first_cover(info.album.image) {
            Some(image) => image,
            None => placeholder_image(),
        },
        None => placeholder_image(),
    }
}

/// How the cover for `track` is got: by a lookup where the track names both
/// its album and its artist, else by showing the placeholder at once.
pub open spec fn cover_order(track: SongView) -> EffectView {
    match (track.album, track.artist) {
        (Some(album), Some(artist)) => EffectView::Fetch(RequestView::AlbumInfo { album, artist }),
        _ => EffectView::Dispatch(
            crate::MsgView::Player(MsgView::AlbumImageUpdated(placeholder_image())),
        ),
    }
}

/// The state of a player page that was just made.
pub open spec fn initial_model() -> ModelView {
    ModelView {
        streamer_status: StreamerStatus {
            source_player: PlayerType::MPD,
            selected_audio_output: AudioOut::SPKR,
            dac_status: DacStatus { volume: 0, filter: FilterType::SharpRollOff },
        },
        player_info: None,
        current_track_info: None,
        waiting_response: false,
        remote_error: None,
    }
}

/// What a player page asks for when it is made: the current status.
pub open spec fn initial_orders() -> Seq<EffectView> {
    seq![EffectView::Fetch(RequestView::CurrentStatus)]
}

impl ModelView {
    /// The state after `msg`.
    pub open spec fn updated(self, msg: MsgView) -> ModelView {
        match msg {
            MsgView::AlbumImageUpdated(image) => match self.current_track_info {
                Some(track) => ModelView {
                    current_track_info: Some(SongView { uri: Some(image.text), ..track }),
                    ..self
                },
                None => self,
            },
            MsgView::CurrentStatusFetched(Some(status)) => ModelView {
                current_track_info: status.current_track_info,
                player_info: status.player_info,
                streamer_status: match status.streamer_status {
                    Some(streamer_status) => streamer_status,
                    None => self.streamer_status,
                },
                ..self
            },
            MsgView::CurrentStatusFetched(None) => self,
            MsgView::StatusChangeEventReceived(event) => match event {
                StatusChangeEventView::CurrentTrackInfoChanged(track) => ModelView {
                    waiting_response: false,
                    current_track_info: Some(track),
                    ..self
                },
                StatusChangeEventView::PlayerInfoChanged(info) => ModelView {
                    waiting_response: false,
                    player_info: Some(info),
                    ..self
                },
                StatusChangeEventView::StreamerStatusChanged(status) => ModelView {
                    waiting_response: false,
                    streamer_status: status,
                    ..self
                },
                StatusChangeEventView::Error(text) => ModelView {
                    remote_error: Some(text),
                    ..self
                },
            },
            MsgView::SendCommand(command) => match command {
                CommandView::SwitchToPlayer(_) => ModelView { waiting_response: true, ..self },
                CommandView::SetVol(volume) => ModelView {
                    streamer_status: StreamerStatus {
                        dac_status: DacStatus { volume, ..self.streamer_status.dac_status },
                        ..self.streamer_status
                    },
                    ..self
                },
                _ => self,
            },
        }
    }

    /// What `msg` asks for: the cover of a track that has just become the
    /// current one, and nothing else.
    pub open spec fn orders(self, msg: MsgView) -> Seq<EffectView> {
        match msg {
            MsgView::CurrentStatusFetched(Some(status)) => match status.current_track_info {
                Some(track) => seq![cover_order(track)],
                None => Seq::empty(),
            },
            MsgView::StatusChangeEventReceived(
                StatusChangeEventView::CurrentTrackInfoChanged(track),
            ) => seq![cover_order(track)],
            _ => Seq::empty(),
        }
    }

    /// The background of the page: the cover of the current track.
    pub open spec fn background_image(self) -> Seq<char> {
        match self.current_track_info {
            Some(track) => "url("@ + match track.uri {
                Some(uri) => uri,
                None => Seq::empty(),
            } + ")"@,
            None => Seq::empty(),
        }
    }
}

/// Makes the player page and asks for the current status.
pub fn init(_url: Url) -> (made: (Model, Vec<Effect>))
    ensures
        made.0@ == initial_model(),
        made.1.deep_view() == initial_orders(),
{
    let model = Model {
        streamer_status: StreamerStatus {
            source_player: PlayerType::MPD,
            selected_audio_output: AudioOut::SPKR,
            dac_status: DacStatus::default(),
        },
        player_info: None,
        current_track_info: None,
        waiting_response: false,
        remote_error: None,
    };
    let mut effects: Vec<Effect> = Vec::new();
    effects.push(Effect::Fetch(Request::CurrentStatus));
    (model, effects)
}

/// The placeholder picture.
pub fn no_album_image() -> (image: Image)
    ensures
        image@ == placeholder_image(),
{
    Image { size: "mega".to_owned(), text: "/no_album.png".to_owned() }
}

fn order_cover(track: &Song) -> (order: Effect)
    ensures
        order@ == cover_order(track@),
{
    match (&track.album, &track.artist) {
        (Some(album), Some(artist)) => Effect::Fetch(
            Request::AlbumInfo { album: album.clone(), artist: artist.clone() },
        ),
        _ => Effect::Dispatch(crate::Msg::Player(Msg::AlbumImageUpdated(no_album_image()))),
    }
}

/// Takes a message in: changes the page's state and says what to do.
pub fn update(msg: Msg, model: &mut Model) -> (effects: Vec<Effect>)
    ensures
        final(model)@ == old(model)@.updated(msg@),
        effects.deep_view() == old(model)@.orders(msg@),
{
    let mut effects: Vec<Effect> = Vec::new();
    match msg {
        Msg::AlbumImageUpdated(image) => {
            let current = model.current_track_info.take();
            match current {
                Some(track) => {
                    model.current_track_info = Some(Song { uri: Some(image.text), ..track });
                },
                None => {},
            }
        },
        Msg::CurrentStatusFetched(Some(status)) => {
            match &status.current_track_info {
                Some(track) => {
                    let order = order_cover(track);
                    effects.push(order);
                },
                None => {},
            }
            model.current_track_info = status.current_track_info;
            model.player_info = status.player_info;
            match status.streamer_status {
                Some(streamer_status) => {
                    model.streamer_status = streamer_status;
                },
                None => {},
            }
        },
        Msg::CurrentStatusFetched(None) => {},
        Msg::StatusChangeEventReceived(StatusChangeEvent::CurrentTrackInfoChanged(track)) => {
            let order = order_cover(&track);
            effects.push(order);
            model.waiting_response = false;
            model.current_track_info = Some(track);
        },
        Msg::StatusChangeEventReceived(StatusChangeEvent::PlayerInfoChanged(info)) => {
            model.waiting_response = false;
            model.player_info = Some(info);
        },
        Msg::StatusChangeEventReceived(StatusChangeEvent::StreamerStatusChanged(status)) => {
            model.waiting_response = false;
            model.streamer_status = status;
        },
        Msg::StatusChangeEventReceived(StatusChangeEvent::Error(text)) => {
            model.remote_error = Some(text);
        },
        Msg::SendCommand(command) => {
            match command {
                Command::SwitchToPlayer(_) => {
                    model.waiting_response = true;
                },
                Command::SetVol(volume) => {
                    model.streamer_status.dac_status.volume = volume;
                },
                _ => {},
            }
        },
    }
    effects
}

/// The first picture of the answer that can serve as the cover.
pub fn get_album_image_from_lastfm_api(info: &AlbumInfo) -> (found: Option<Image>)
    ensures
        found.deep_view() == first_cover(info@.album.image),
{
    let images = &info.album.image;
    let mut at: usize = 0;
    assert(images.deep_view().subrange(0, images.len() as int) =~= images.deep_view());
    while at < images.len()
        invariant
            at <= images.len(),
            images.deep_view() == info@.album.image,
            first_cover(images.deep_view()) == first_cover(
                images.deep_view().subrange(at as int, images.len() as int),
            ),
        decreases images.len() - at,
    {
        let image = &images[at];
        let ghost rest = images.deep_view().subrange(at as int, images.len() as int);
        assert(rest.drop_first() =~= images.deep_view().subrange(
            at as int + 1,
            images.len() as int,
        ));
        if same(image.size.as_str(), "mega") && !image.text.as_str().is_empty() {
            return Some(Image { size: image.size.clone(), text: image.text.clone() });
        }
        at = at + 1;
    }
    None
}

/// The message that reports the cover to the player page, once the album
/// lookup has answered with `info` or has failed (`None`).
pub fn update_album_cover(info: Option<AlbumInfo>) -> (msg: Msg)
    ensures
        msg@ == MsgView::AlbumImageUpdated(cover_of(info.deep_view())),
{
    match info {
        Some(info) => match get_album_image_from_lastfm_api(&info) {
            Some(image) => Msg::AlbumImageUpdated(image),
            None => Msg::AlbumImageUpdated(no_album_image()),
        },
        None => Msg::AlbumImageUpdated(no_album_image()),
    }
}

/// The background of the page, as a style value.
pub fn get_background_image(model: &Model) -> (image: String)
    ensures
        image@ == model@.background_image(),
{
    match &model.current_track_info {
        Some(track) => {
            let mut image = match &track.uri {
                Some(uri) => join("url(", uri.as_str()),
                None => "url(".to_owned(),
            };
            image.append(")");
            image
        },
        None => String::new(),
    }
}

/// The command that sets the volume to what the user typed or dragged to,
/// where that is a number from 0 to 255.
pub open spec fn volume_of(input: Seq<char>) -> Option<CommandView> {
    match bounded_decimal(input, 255) {
        Some(volume) => Some(CommandView::SetVol(volume as u8)),
        None => None,
    }
}

/// Reads the value of the volume control.
pub fn volume_command(input: &str) -> (command: Option<Command>)
    ensures
        command.deep_view() == volume_of(input@),
{
    match parse_u8(input) {
        Some(volume) => Some(Command::SetVol(volume)),
        None => None,
    }
}

/// The icon that stands for the output in use.
pub fn audio_out_icon(output: AudioOut) -> (icon: &'static str)
    ensures
        icon@ == match output {
            AudioOut::SPKR => "speaker"@,
            AudioOut::HEAD => "headset"@,
        },
{
    match output {
        AudioOut::SPKR => "speaker",
        AudioOut::HEAD => "headset",
    }
}

/// Whether the tracks are known to play in their listed order: the player
/// says so. Where nothing is known of the player they count as shuffled.
pub open spec fn plays_in_order(info: Option<PlayerInfo>) -> bool {
    match info {
        Some(info) => info.random != Some(true),
        None => false,
    }
}

/// The icon that stands for the order of play.
pub fn shuffle_icon(info: Option<PlayerInfo>) -> (icon: &'static str)
    ensures
        icon@ == if plays_in_order(info) {
            "format_list_numbered"@
        } else {
            "shuffle"@
        },
{
    match info {
        Some(info) => match info.random {
            Some(true) => "shuffle",
            _ => "format_list_numbered",
        },
        None => "shuffle",
    }
}

/// The format of the stream as a line of text; what is not known counts as
/// zero.
pub open spec fn audio_format_text(info: PlayerInfo) -> Seq<char> {
    "Freq: "@ + decimal_text(
        match info.audio_format_rate {
            Some(rate) => rate as nat,
            None => 0,
        },
    ) + " | Bit: "@ + decimal_text(
        match info.audio_format_bit {
            Some(bit) => bit as nat,
            None => 0,
        },
    ) + " | Ch: "@ + decimal_text(
        match info.audio_format_channels {
            Some(channels) => channels as nat,
            None => 0,
        },
    )
}

/// The format of the stream, to show under the track.
pub fn audio_format(info: &PlayerInfo) -> (text: String)
    ensures
        text@ == audio_format_text(*info),
{
    let rate: u64 = match info.audio_format_rate {
        Some(rate) => rate as u64,
        None => 0,
    };
    let bit: u64 = match info.audio_format_bit {
        Some(bit) => bit as u64,
        None => 0,
    };
    let channels: u64 = match info.audio_format_channels {
        Some(channels) => channels as u64,
        None => 0,
    };
    let mut text = join("Freq: ", decimal(rate).as_str());
    text.append(" | Bit: ");
    text.append(decimal(bit).as_str());
    text.append(" | Ch: ");
    text.append(decimal(channels).as_str());
    text
}

/// The volume out of the largest, to show over the volume control.
pub fn volume_label(status: &DacStatus) -> (text: String)
    ensures
        text@ == "Volume: "@ + decimal_text(status.volume as nat) + "/255"@,
{
    let mut text = join("Volume: ", decimal(status.volume as u64).as_str());
    text.append("/255");
    text
}

} // verus!

//! Tracks, player state, events pushed by the backend and commands sent to it.

use crate::number::{decimal, decimal_text};
use crate::text::{join, same};
use vstd::prelude::*;

verus! {

/// The players that the backend can drive.
#[derive(Clone, Copy, Debug, PartialEq, Eq, Structural)]
pub enum PlayerType {
    SPF,
    MPD,
    LMS,
}

/// The player that `name` stands for, if it is the exact name of one.
pub open spec fn player_type_named(name: Seq<char>) -> Option<PlayerType> {
    if name == "SPF"@ {
        Some(PlayerType::SPF)
    } else if name == "MPD"@ {
        Some(PlayerType::MPD)
    } else if name == "LMS"@ {
        Some(PlayerType::LMS)
    } else {
        None
    }
}

/// The name of a player: that of its variant.
pub open spec fn player_type_name(player: PlayerType) -> Seq<char> {
    match player {
        PlayerType::SPF => "SPF"@,
        PlayerType::MPD => "MPD"@,
        PlayerType::LMS => "LMS"@,
    }
}

/// The name of a player is read back as that player.
pub proof fn lemma_player_type_name_is_read_back(player: PlayerType)
    ensures
        player_type_named(player_type_name(player)) == Some(player),
{
    reveal_strlit("SPF");
    reveal_strlit("MPD");
    reveal_strlit("LMS");
    assert("MPD"@[0] != "SPF"@[0]);
    assert("LMS"@[0] != "SPF"@[0]);
    assert("LMS"@[0] != "MPD"@[0]);
}

impl PlayerType {
    /// Reads a player's name as the selection lists of the settings page give it.
    pub fn parse(name: &str) -> (parsed: Option<PlayerType>)
        ensures
            parsed == player_type_named(name@),
    {
        if same(name, "SPF") {
            Some(PlayerType::SPF)
        } else if same(name, "MPD") {
            Some(PlayerType::MPD)
        } else if same(name, "LMS") {
            Some(PlayerType::LMS)
        } else {
            None
        }
    }

    /// The name of the player.
    pub fn name(self) -> (name: &'static str)
        ensures
            name@ == player_type_name(self),
    {
        match self {
            PlayerType::SPF => "SPF",
            PlayerType::MPD => "MPD",
            PlayerType::LMS => "LMS",
        }
    }
}

/// Where the sound goes.
#[derive(Clone, Copy, Debug, PartialEq, Eq, Structural)]
pub enum AudioOut {
    SPKR,
    HEAD,
}

/// What the player is doing.
#[derive(Clone, Copy, Debug, PartialEq, Eq, Structural)]
pub enum PlayerState {
    PLAYING,
    PAUSED,
    STOPPED,
}

/// The digital filters of the converter chip.
#[derive(Clone, Copy, Debug, PartialEq, Eq, Structural)]
pub enum FilterType {
    SharpRollOff,
    SlowRollOff,
    ShortDelaySharpRollOff,
    ShortDelaySlowRollOff,
    SuperSlow,
}

/// The name of a filter: that of its variant.
pub open spec fn filter_name(filter: FilterType) -> Seq<char> {
    match filter {
        FilterType::SharpRollOff => "SharpRollOff"@,
        FilterType::SlowRollOff => "SlowRollOff"@,
        FilterType::ShortDelaySharpRollOff => "ShortDelaySharpRollOff"@,
        FilterType::ShortDelaySlowRollOff => "ShortDelaySlowRollOff"@,
        FilterType::SuperSlow => "SuperSlow"@,
    }
}

/// The filter that `name` stands for, if it is the exact name of one.
pub open spec fn filter_named(name: Seq<char>) -> Option<FilterType> {
    if name == "SharpRollOff"@ {
        Some(FilterType::SharpRollOff)
    } else if name == "SlowRollOff"@ {
        Some(FilterType::SlowRollOff)
    } else if name == "ShortDelaySharpRollOff"@ {
        Some(FilterType::ShortDelaySharpRollOff)
    } else if name == "ShortDelaySlowRollOff"@ {
        Some(FilterType::ShortDelaySlowRollOff)
    } else if name == "SuperSlow"@ {
        Some(FilterType::SuperSlow)
    } else {
        None
    }
}

/// The name of a filter is read back as that filter.
pub proof fn lemma_filter_name_is_read_back(filter: FilterType)
    ensures
        filter_named(filter_name(filter)) == Some(filter),
{
    reveal_strlit("SharpRollOff");
    reveal_strlit("SlowRollOff");
    reveal_strlit("ShortDelaySharpRollOff");
    reveal_strlit("ShortDelaySlowRollOff");
    reveal_strlit("SuperSlow");
    assert("SharpRollOff"@.len() == 12);
    assert("SlowRollOff"@.len() == 11);
    assert("ShortDelaySharpRollOff"@.len() == 22);
    assert("ShortDelaySlowRollOff"@.len() == 21);
    assert("SuperSlow"@.len() == 9);
}

/// Every filter, in the order in which a selection list shows them.
pub open spec fn all_filters() -> Seq<FilterType> {
    seq![
        FilterType::SharpRollOff,
        FilterType::SlowRollOff,
        FilterType::ShortDelaySharpRollOff,
        FilterType::ShortDelaySlowRollOff,
        FilterType::SuperSlow,
    ]
}

impl FilterType {
    /// Every filter, each once.
    pub fn all() -> (filters: Vec<FilterType>)
        ensures
            filters@ == all_filters(),
    {
        let mut filters: Vec<FilterType> = Vec::new();
        filters.push(FilterType::SharpRollOff);
        filters.push(FilterType::SlowRollOff);
        filters.push(FilterType::ShortDelaySharpRollOff);
        filters.push(FilterType::ShortDelaySlowRollOff);
        filters.push(FilterType::SuperSlow);
        filters
    }

    /// The name of the filter.
    pub fn name(self) -> (name: &'static str)
        ensures
            name@ == filter_name(self),
    {
        match self {
            FilterType::SharpRollOff => "SharpRollOff",
            FilterType::SlowRollOff => "SlowRollOff",
            FilterType::ShortDelaySharpRollOff => "ShortDelaySharpRollOff",
            FilterType::ShortDelaySlowRollOff => "ShortDelaySlowRollOff",
            FilterType::SuperSlow => "SuperSlow",
        }
    }

    /// Reads the name of a filter.
    pub fn parse(name: &str) -> (parsed: Option<FilterType>)
        ensures
            parsed == filter_named(name@),
    {
        if same(name, "SharpRollOff") {
            Some(FilterType::SharpRollOff)
        } else if same(name, "SlowRollOff") {
            Some(FilterType::SlowRollOff)
        } else if same(name, "ShortDelaySharpRollOff") {
            Some(FilterType::ShortDelaySharpRollOff)
        } else if same(name, "ShortDelaySlowRollOff") {
            Some(FilterType::ShortDelaySlowRollOff)
        } else if same(name, "SuperSlow") {
            Some(FilterType::SuperSlow)
        } else {
            None
        }
    }
}

/// What the converter chip is set to.
#[derive(Clone, Copy, Debug, PartialEq, Eq)]
pub struct DacStatus {
    pub volume: u8,
    pub filter: FilterType,
}

impl Default for DacStatus {
    fn default() -> (status: DacStatus)
        ensures
            status == (DacStatus { volume: 0, filter: FilterType::SharpRollOff }),
    {
        DacStatus { volume: 0, filter: FilterType::SharpRollOff }
    }
}

/// What the streamer as a whole is set to.
#[derive(Clone, Copy, Debug, PartialEq, Eq)]
pub struct StreamerStatus {
    pub source_player: PlayerType,
    pub selected_audio_output: AudioOut,
    pub dac_status: DacStatus,
}

/// What the player reports of the stream it plays. `time` is the position in
/// the track and the track's length, in whole seconds.
#[derive(Clone, Copy, Debug, PartialEq, Eq)]
pub struct PlayerInfo {
    pub audio_format_rate: Option<u32>,
    pub audio_format_bit: Option<u8>,
    pub audio_format_channels: Option<u32>,
    pub random: Option<bool>,
    pub state: Option<PlayerState>,
    pub time: (u64, u64),
}

/// A number in two digits at least: a zero in front of a single digit.
pub open spec fn two_digits(value: nat) -> Seq<char> {
    if value < 10 {
        "0"@ + decimal_text(value)
    } else {
        decimal_text(value)
    }
}

/// A span of time as minutes and seconds, `05:07` for 307 seconds.
pub open spec fn clock_text(seconds: nat) -> Seq<char> {
    two_digits(seconds / 60) + ":"@ + two_digits(seconds % 60)
}

/// Writes a span of time as minutes and seconds.
pub fn clock(seconds: u64) -> (text: String)
    ensures
        text@ == clock_text(seconds as nat),
{
    let minutes: u64 = seconds / 60;
    let rest: u64 = seconds % 60;
    let mut text = if minutes < 10 {
        join("0", decimal(minutes).as_str())
    } else {
        decimal(minutes)
    };
    text.append(":");
    if rest < 10 {
        text.append("0");
    }
    text.append(decimal(rest).as_str());
    text
}

impl PlayerInfo {
    /// The position in the track and the track's length, as text.
    pub open spec fn time_text(self) -> Seq<char> {
        clock_text(self.time.0 as nat) + " / "@ + clock_text(self.time.1 as nat)
    }

    /// The position in the track and the track's length, to show.
    pub fn format_time(&self) -> (text: String)
        ensures
            text@ == self.time_text(),
    {
        let mut text = clock(self.time.0);
        text.append(" / ");
        text.append(clock(self.time.1).as_str());
        text
    }

    /// Whether the player is playing.
    pub fn is_playing(&self) -> (playing: bool)
        ensures
            playing == (self.state == Some(PlayerState::PLAYING)),
    {
        match self.state {
            Some(PlayerState::PLAYING) => true,
            _ => false,
        }
    }
}

/// A copy of an optional text.
pub fn copy_text(text: &Option<String>) -> (copy: Option<String>)
    ensures
        copy.deep_view() == text.deep_view(),
{
    match text {
        Some(held) => Some(held.clone()),
        None => None,
    }
}

/// A track.
#[derive(Clone, Debug, PartialEq, Eq)]
pub struct Song {
    pub title: Option<String>,
    pub album: Option<String>,
    pub artist: Option<String>,
    pub genre: Option<String>,
    pub date: Option<String>,
    pub file: String,
    pub uri: Option<String>,
    pub position: Option<u32>,
}

/// A track, its texts read as characters.
pub struct SongView {
    pub title: Option<Seq<char>>,
    pub album: Option<Seq<char>>,
    pub artist: Option<Seq<char>>,
    pub genre: Option<Seq<char>>,
    pub date: Option<Seq<char>>,
    pub file: Seq<char>,
    pub uri: Option<Seq<char>>,
    pub position: Option<u32>,
}

impl DeepView for Song {
    type V = SongView;

    open spec fn deep_view(&self) -> SongView {
        SongView {
            title: self.title.deep_view(),
            album: self.album.deep_view(),
            artist: self.artist.deep_view(),
            genre: self.genre.deep_view(),
            date: self.date.deep_view(),
            file: self.file@,
            uri: self.uri.deep_view(),
            position: self.position,
        }
    }
}

impl View for Song {
    type V = SongView;

    open spec fn view(&self) -> SongView {
        self.deep_view()
    }
}

impl SongView {
    /// The title of the track, or the name of its file where it has none.
    pub open spec fn title_or_file(self) -> Seq<char> {
        match self.title {
            Some(title) => title,
            None => self.file,
        }
    }

    /// The place of the track in the queue, zero where it is not known.
    pub open spec fn queue_position(self) -> u32 {
        match self.position {
            Some(position) => position,
            None => 0,
        }
    }
}

impl Song {
    /// The title to show for the track.
    pub fn get_title(&self) -> (title: String)
        ensures
            title@ == self@.title_or_file(),
    {
        match &self.title {
            Some(title) => title.clone(),
            None => self.file.clone(),
        }
    }

    /// The place at which a "play this" on the track starts the queue.
    pub fn queue_position(&self) -> (position: u32)
        ensures
            position == self@.queue_position(),
    {
        match self.position {
            Some(position) => position,
            None => 0,
        }
    }
}

/// What the backend knew when it was last asked.
#[derive(Clone, Debug, PartialEq, Eq)]
pub struct LastStatus {
    pub current_track_info: Option<Song>,
    pub player_info: Option<PlayerInfo>,
    pub streamer_status: Option<StreamerStatus>,
}

/// The last status, its texts read as characters.
pub struct LastStatusView {
    pub current_track_info: Option<SongView>,
    pub player_info: Option<PlayerInfo>,
    pub streamer_status: Option<StreamerStatus>,
}

impl DeepView for LastStatus {
    type V = LastStatusView;

    open spec fn deep_view(&self) -> LastStatusView {
        LastStatusView {
            current_track_info: self.current_track_info.deep_view(),
            player_info: self.player_info,
            streamer_status: self.streamer_status,
        }
    }
}

impl View for LastStatus {
    type V = LastStatusView;

    open spec fn view(&self) -> LastStatusView {
        self.deep_view()
    }
}

/// A notification that the backend pushes over the channel.
#[derive(Clone, Debug, PartialEq, Eq)]
pub enum StatusChangeEvent {
    CurrentTrackInfoChanged(Song),
    PlayerInfoChanged(PlayerInfo),
    StreamerStatusChanged(StreamerStatus),
    Error(String),
}

/// A notification, its texts read as characters.
pub enum StatusChangeEventView {
    CurrentTrackInfoChanged(SongView),
    PlayerInfoChanged(PlayerInfo),
    StreamerStatusChanged(StreamerStatus),
    Error(Seq<char>),
}

impl DeepView for StatusChangeEvent {
    type V = StatusChangeEventView;

    open spec fn deep_view(&self) -> StatusChangeEventView {
        match self {
            StatusChangeEvent::CurrentTrackInfoChanged(song) => {
                StatusChangeEventView::CurrentTrackInfoChanged(song@)
            },
            StatusChangeEvent::PlayerInfoChanged(info) => {
                StatusChangeEventView::PlayerInfoChanged(*info)
            },
            StatusChangeEvent::StreamerStatusChanged(status) => {
                StatusChangeEventView::StreamerStatusChanged(*status)
            },
            StatusChangeEvent::Error(text) => StatusChangeEventView::Error(text@),
        }
    }
}

impl View for StatusChangeEvent {
    type V = StatusChangeEventView;

    open spec fn view(&self) -> StatusChangeEventView {
        self.deep_view()
    }
}

/// What the user asks the backend to do.
#[derive(Clone, Debug, PartialEq, Eq)]
pub enum Command {
    Play,
    Pause,
    Next,
    Prev,
    VolUp,
    VolDown,
    SetVol(u8),
    SwitchToPlayer(PlayerType),
    RandomToggle,
    ChangeAudioOutput,
    PlayAt(u32),
    LoadPlaylist(String),
    Filter(FilterType),
}

/// A command, its text read as characters.
pub enum CommandView {
    Play,
    Pause,
    Next,
    Prev,
    VolUp,
    VolDown,
    SetVol(u8),
    SwitchToPlayer(PlayerType),
    RandomToggle,
    ChangeAudioOutput,
    PlayAt(u32),
    LoadPlaylist(Seq<char>),
    Filter(FilterType),
}

impl DeepView for Command {
    type V = CommandView;

    open spec fn deep_view(&self) -> CommandView {
        match self {
            Command::Play => CommandView::Play,
            Command::Pause => CommandView::Pause,
            Command::Next => CommandView::Next,
            Command::Prev => CommandView::Prev,
            Command::VolUp => CommandView::VolUp,
            Command::VolDown => CommandView::VolDown,
            Command::SetVol(volume) => CommandView::SetVol(*volume),
            Command::SwitchToPlayer(player) => CommandView::SwitchToPlayer(*player),
            Command::RandomToggle => CommandView::RandomToggle,
            Command::ChangeAudioOutput => CommandView::ChangeAudioOutput,
            Command::PlayAt(position) => CommandView::PlayAt(*position),
            Command::LoadPlaylist(id) => CommandView::LoadPlaylist(id@),
            Command::Filter(filter) => CommandView::Filter(*filter),
        }
    }
}

impl View for Command {
    type V = CommandView;

    open spec fn view(&self) -> CommandView {
        self.deep_view()
    }
}

impl Command {
    /// A copy of the command.
    pub fn copy(&self) -> (copy: Command)
        ensures
            copy@ == self@,
    {
        match self {
            Command::Play => Command::Play,
            Command::Pause => Command::Pause,
            Command::Next => Command::Next,
            Command::Prev => Command::Prev,
            Command::VolUp => Command::VolUp,
            Command::VolDown => Command::VolDown,
            Command::SetVol(volume) => Command::SetVol(*volume),
            Command::SwitchToPlayer(player) => Command::SwitchToPlayer(*player),
            Command::RandomToggle => Command::RandomToggle,
            Command::ChangeAudioOutput => Command::ChangeAudioOutput,
            Command::PlayAt(position) => Command::PlayAt(*position),
            Command::LoadPlaylist(id) => Command::LoadPlaylist(id.clone()),
            Command::Filter(filter) => Command::Filter(*filter),
        }
    }
}

} // verus!

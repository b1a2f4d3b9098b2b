use dplayer_ui::models::player::{
    copy_text, AudioOut, Command, DacStatus, FilterType, PlayerInfo, PlayerState, PlayerType, Song,
};
use dplayer_ui::models::settings::{
    AlsaSettings, DacSettings, LmsSettings, MpdSettings, Settings, SpotifySettings,
};
use dplayer_ui::request::{Method, Request};

fn song(title: Option<&str>, file: &str, position: Option<u32>) -> Song {
    Song {
        title: title.map(|text| text.to_string()),
        album: None,
        artist: None,
        genre: None,
        date: None,
        file: file.to_string(),
        uri: None,
        position,
    }
}

#[test]
fn player_types_are_read_by_name() {
    assert_eq!(PlayerType::parse("SPF"), Some(PlayerType::SPF));
    assert_eq!(PlayerType::parse("MPD"), Some(PlayerType::MPD));
    assert_eq!(PlayerType::parse("LMS"), Some(PlayerType::LMS));
    assert_eq!(PlayerType::parse("mpd"), None);
    assert_eq!(PlayerType::parse(""), None);
    assert_eq!(PlayerType::parse("MPD "), None);
    for player in [PlayerType::SPF, PlayerType::MPD, PlayerType::LMS] {
        assert_eq!(PlayerType::parse(player.name()), Some(player));
    }
    assert_eq!(PlayerType::SPF.name(), "SPF");
}

#[test]
fn filters_are_read_by_name() {
    let all = FilterType::all();
    assert_eq!(
        all,
        vec![
            FilterType::SharpRollOff,
            FilterType::SlowRollOff,
            FilterType::ShortDelaySharpRollOff,
            FilterType::ShortDelaySlowRollOff,
            FilterType::SuperSlow,
        ]
    );
    for filter in all {
        assert_eq!(FilterType::parse(filter.name()), Some(filter));
        assert_eq!(format!("{:?}", filter), filter.name());
    }
    assert_eq!(FilterType::parse("SharpRollOf"), None);
    assert_eq!(FilterType::parse("superslow"), None);
    assert_eq!(FilterType::parse(""), None);
}

#[test]
fn a_song_shows_its_title_or_its_file() {
    assert_eq!(song(Some("A"), "a.flac", None).get_title(), "A");
    assert_eq!(song(None, "a.flac", None).get_title(), "a.flac");
    assert_eq!(song(Some(""), "a.flac", None).get_title(), "");
}

#[test]
fn a_song_without_a_position_plays_from_the_start() {
    assert_eq!(song(None, "a", Some(4)).queue_position(), 4);
    assert_eq!(song(None, "a", Some(0)).queue_position(), 0);
    assert_eq!(song(None, "a", None).queue_position(), 0);
}

#[test]
fn playing_is_told_from_the_state() {
    let mut info = PlayerInfo {
        audio_format_rate: None,
        audio_format_bit: None,
        audio_format_channels: None,
        random: None,
        state: Some(PlayerState::PLAYING),
        time: (0, 0),
    };
    assert!(info.is_playing());
    info.state = Some(PlayerState::PAUSED);
    assert!(!info.is_playing());
    info.state = Some(PlayerState::STOPPED);
    assert!(!info.is_playing());
    info.state = None;
    assert!(!info.is_playing());
}

#[test]
fn default_dac_status_is_silent() {
    assert_eq!(DacStatus::default(), DacStatus { volume: 0, filter: FilterType::SharpRollOff });
    assert_ne!(AudioOut::SPKR, AudioOut::HEAD);
}

#[test]
fn copies_hold_the_same() {
    assert_eq!(copy_text(&None), None);
    assert_eq!(copy_text(&Some("x".to_string())), Some("x".to_string()));
    let commands = [
        Command::Play,
        Command::Pause,
        Command::Next,
        Command::Prev,
        Command::VolUp,
        Command::VolDown,
        Command::SetVol(200),
        Command::SwitchToPlayer(PlayerType::LMS),
        Command::RandomToggle,
        Command::ChangeAudioOutput,
        Command::PlayAt(7),
        Command::LoadPlaylist("rock".to_string()),
        Command::Filter(FilterType::SuperSlow),
    ];
    for command in commands {
        assert_eq!(command.copy(), command);
    }
}

fn sample_settings() -> Settings {
    Settings {
        active_player: PlayerType::SPF,
        spotify_settings: SpotifySettings {
            enabled: true,
            device_name: "living room".to_string(),
            username: "user".to_string(),
            password: "word".to_string(),
            developer_client_id: "id".to_string(),
            developer_secret: "hidden".to_string(),
            auth_callback_url: "http://player.lan/callback".to_string(),
            alsa_device_name: "hw:1".to_string(),
        },
        lms_settings: LmsSettings {
            enabled: false,
            server_host: "lms.lan".to_string(),
            server_port: 9000,
            cli_port: 9090,
        },
        mpd_settings: MpdSettings {
            enabled: true,
            server_host: "localhost".to_string(),
            server_port: 6600,
        },
        dac_settings: DacSettings { enabled: true, i2c_address: 19 },
        alsa_settings: AlsaSettings {
            available_alsa_pcm_devices: vec![
                ("hw:0".to_string(), "onboard".to_string()),
                ("hw:1".to_string(), "dac".to_string()),
            ],
        },
    }
}

#[test]
fn settings_copy_holds_the_same() {
    let settings = sample_settings();
    assert_eq!(settings.copy(), settings);
    assert_eq!(settings.spotify_settings.copy(), settings.spotify_settings);
    assert_eq!(settings.lms_settings.copy(), settings.lms_settings);
    assert_eq!(settings.mpd_settings.copy(), settings.mpd_settings);
    assert_eq!(settings.alsa_settings.copy(), settings.alsa_settings);
    assert_eq!(Settings::default().copy(), Settings::default());
}

#[test]
fn default_settings_are_blank() {
    let settings = Settings::default();
    assert_eq!(settings.active_player, PlayerType::MPD);
    assert!(!settings.spotify_settings.enabled);
    assert_eq!(settings.spotify_settings.device_name, "");
    assert_eq!(settings.spotify_settings.auth_callback_url, "");
    assert!(!settings.lms_settings.enabled);
    assert_eq!(settings.lms_settings.server_port, 0);
    assert!(!settings.mpd_settings.enabled);
    assert_eq!(settings.mpd_settings.server_host, "");
    assert_eq!(settings.dac_settings, DacSettings { enabled: false, i2c_address: 0 });
    assert!(settings.alsa_settings.available_alsa_pcm_devices.is_empty());
}

#[test]
fn only_saving_posts() {
    assert_eq!(Request::SaveSettings(Settings::default()).method(), Method::Post);
    let gets = [
        Request::CurrentStatus,
        Request::Playlists,
        Request::PlaylistItems("x".to_string()),
        Request::QueueItems,
        Request::Settings,
        Request::SpotifyIsAuthorized,
        Request::SpotifyAuthorizationUrl,
        Request::SpotifyAccountInfo,
        Request::AlbumInfo { album: "a".to_string(), artist: "b".to_string() },
    ];
    for request in gets {
        assert_eq!(request.method(), Method::Get);
    }
}

#[test]
fn requests_go_to_their_addresses() {
    assert_eq!(Request::CurrentStatus.address("k"), "/api/status");
    assert_eq!(Request::Playlists.address("k"), "/api/playlists");
    assert_eq!(Request::PlaylistItems("rock".to_string()).address("k"), "/api/playlist/rock");
    assert_eq!(Request::PlaylistItems(String::new()).address("k"), "/api/playlist/");
    assert_eq!(Request::QueueItems.address("k"), "/api/queue");
    assert_eq!(Request::Settings.address("k"), "/api/settings");
    assert_eq!(Request::SaveSettings(Settings::default()).address("k"), "/api/settings");
    assert_eq!(Request::SpotifyIsAuthorized.address("k"), "/api/spotify/is-authorized");
    assert_eq!(Request::SpotifyAuthorizationUrl.address("k"), "/api/spotify/get-url");
    assert_eq!(Request::SpotifyAccountInfo.address("k"), "/api/spotify/me");
}

#[test]
fn album_lookup_names_album_artist_and_key() {
    let request = Request::AlbumInfo { album: "Kind of Blue".to_string(), artist: "Miles".to_string() };
    assert_eq!(
        request.address("abc"),
        "http://ws.audioscrobbler.com/2.0/?method=album.getinfo&album=Kind of Blue&artist=Miles&api_key=abc&format=json"
    );
    let empty = Request::AlbumInfo { album: String::new(), artist: String::new() };
    assert_eq!(
        empty.address(""),
        "http://ws.audioscrobbler.com/2.0/?method=album.getinfo&album=&artist=&api_key=&format=json"
    );
}

//! The configuration that the backend keeps and the settings page edits.

use crate::models::player::PlayerType;
use vstd::prelude::*;

verus! {

/// How the backend reaches Spotify.
#[derive(Clone, Debug, PartialEq, Eq)]
pub struct SpotifySettings {
    pub enabled: bool,
    pub device_name: String,
    pub username: String,
    pub password: String,
    pub developer_client_id: String,
    pub developer_secret: String,
    pub auth_callback_url: String,
    pub alsa_device_name: String,
}

/// The Spotify settings, their texts read as characters.
pub struct SpotifySettingsView {
    pub enabled: bool,
    pub device_name: Seq<char>,
    pub username: Seq<char>,
    pub password: Seq<char>,
    pub developer_client_id: Seq<char>,
    pub developer_secret: Seq<char>,
    pub auth_callback_url: Seq<char>,
    pub alsa_device_name: Seq<char>,
}

impl DeepView for SpotifySettings {
    type V = SpotifySettingsView;

    open spec fn deep_view(&self) -> SpotifySettingsView {
        SpotifySettingsView {
            enabled: self.enabled,
            device_name: self.device_name@,
            username: self.username@,
            password: self.password@,
            developer_client_id: self.developer_client_id@,
            developer_secret: self.developer_secret@,
            auth_callback_url: self.auth_callback_url@,
            alsa_device_name: self.alsa_device_name@,
        }
    }
}

impl View for SpotifySettings {
    type V = SpotifySettingsView;

    open spec fn view(&self) -> SpotifySettingsView {
        self.deep_view()
    }
}

impl SpotifySettings {
    /// A copy of the settings.
    pub fn copy(&self) -> (copy: SpotifySettings)
        ensures
            copy@ == self@,
    {
        SpotifySettings {
            enabled: self.enabled,
            device_name: self.device_name.clone(),
            username: self.username.clone(),
            password: self.password.clone(),
            developer_client_id: self.developer_client_id.clone(),
            developer_secret: self.developer_secret.clone(),
            auth_callback_url: self.auth_callback_url.clone(),
            alsa_device_name: self.alsa_device_name.clone(),
        }
    }
}

/// How the backend reaches a Logitech Media Server.
#[derive(Clone, Debug, PartialEq, Eq)]
pub struct LmsSettings {
    pub enabled: bool,
    pub server_host: String,
    pub server_port: u32,
    pub cli_port: u32,
}

/// The media server settings, their text read as characters.
pub struct LmsSettingsView {
    pub enabled: bool,
    pub server_host: Seq<char>,
    pub server_port: u32,
    pub cli_port: u32,
}

impl DeepView for LmsSettings {
    type V = LmsSettingsView;

    open spec fn deep_view(&self) -> LmsSettingsView {
        LmsSettingsView {
            enabled: self.enabled,
            server_host: self.server_host@,
            server_port: self.server_port,
            cli_port: self.cli_port,
        }
    }
}

impl View for LmsSettings {
    type V = LmsSettingsView;

    open spec fn view(&self) -> LmsSettingsView {
        self.deep_view()
    }
}

impl LmsSettings {
    /// A copy of the settings.
    pub fn copy(&self) -> (copy: LmsSettings)
        ensures
            copy@ == self@,
    {
        LmsSettings {
            enabled: self.enabled,
            server_host: self.server_host.clone(),
            server_port: self.server_port,
            cli_port: self.cli_port,
        }
    }
}

/// How the backend reaches a Music Player Daemon.
#[derive(Clone, Debug, PartialEq, Eq)]
pub struct MpdSettings {
    pub enabled: bool,
    pub server_host: String,
    pub server_port: u32,
}

/// The daemon settings, their text read as characters.
pub struct MpdSettingsView {
    pub enabled: bool,
    pub server_host: Seq<char>,
    pub server_port: u32,
}

impl DeepView for MpdSettings {
    type V = MpdSettingsView;

    open spec fn deep_view(&self) -> MpdSettingsView {
        MpdSettingsView {
            enabled: self.enabled,
            server_host: self.server_host@,
            server_port: self.server_port,
        }
    }
}

impl View for MpdSettings {
    type V = MpdSettingsView;

    open spec fn view(&self) -> MpdSettingsView {
        self.deep_view()
    }
}

impl MpdSettings {
    /// A copy of the settings.
    pub fn copy(&self) -> (copy: MpdSettings)
        ensures
            copy@ == self@,
    {
        MpdSettings {
            enabled: self.enabled,
            server_host: self.server_host.clone(),
            server_port: self.server_port,
        }
    }
}

/// Whether and where the converter chip is driven.
#[derive(Clone, Copy, Debug, PartialEq, Eq)]
pub struct DacSettings {
    pub enabled: bool,
    pub i2c_address: u16,
}

/// The sound devices that the backend found, each with its name and its
/// description.
#[derive(Clone, Debug, PartialEq, Eq)]
pub struct AlsaSettings {
    pub available_alsa_pcm_devices: Vec<(String, String)>,
}

/// The sound devices, their texts read as characters.
pub struct AlsaSettingsView {
    pub available_alsa_pcm_devices: Seq<(Seq<char>, Seq<char>)>,
}

impl DeepView for AlsaSettings {
    type V = AlsaSettingsView;

    open spec fn deep_view(&self) -> AlsaSettingsView {
        AlsaSettingsView {
            available_alsa_pcm_devices: self.available_alsa_pcm_devices.deep_view(),
        }
    }
}

impl View for AlsaSettings {
    type V = AlsaSettingsView;

    open spec fn view(&self) -> AlsaSettingsView {
        self.deep_view()
    }
}

impl AlsaSettings {
    /// A copy of the settings.
    pub fn copy(&self) -> (copy: AlsaSettings)
        ensures
            copy@ == self@,
    {
        let mut devices: Vec<(String, String)> = Vec::new();
        let mut at: usize = 0;
        while at < self.available_alsa_pcm_devices.len()
            invariant
                at <= self.available_alsa_pcm_devices.len(),
                devices.len() == at,
                forall|k: int|
                    0 <= k < at ==> devices[k].deep_view()
                        == self.available_alsa_pcm_devices[k].deep_view(),
            decreases self.available_alsa_pcm_devices.len() - at,
        {
            let device = &self.available_alsa_pcm_devices[at];
            devices.push((device.0.clone(), device.1.clone()));
            at = at + 1;
        }
        assert(devices.deep_view() =~= self.available_alsa_pcm_devices.deep_view());
        AlsaSettings { available_alsa_pcm_devices: devices }
    }
}

/// The whole configuration.
#[derive(Clone, Debug, PartialEq, Eq)]
pub struct Settings {
    pub active_player: PlayerType,
    pub spotify_settings: SpotifySettings,
    pub lms_settings: LmsSettings,
    pub mpd_settings: MpdSettings,
    pub dac_settings: DacSettings,
    pub alsa_settings: AlsaSettings,
}

/// The configuration, its texts read as characters.
pub struct SettingsView {
    pub active_player: PlayerType,
    pub spotify_settings: SpotifySettingsView,
    pub lms_settings: LmsSettingsView,
    pub mpd_settings: MpdSettingsView,
    pub dac_settings: DacSettings,
    pub alsa_settings: AlsaSettingsView,
}

impl DeepView for Settings {
    type V = SettingsView;

    open spec fn deep_view(&self) -> SettingsView {
        SettingsView {
            active_player: self.active_player,
            spotify_settings: self.spotify_settings@,
            lms_settings: self.lms_settings@,
            mpd_settings: self.mpd_settings@,
            dac_settings: self.dac_settings,
            alsa_settings: self.alsa_settings@,
        }
    }
}

impl View for Settings {
    type V = SettingsView;

    open spec fn view(&self) -> SettingsView {
        self.deep_view()
    }
}

/// The configuration that a settings page shows until the backend's arrives:
/// the daemon as the active player, everything switched off, every text empty.
pub open spec fn blank_settings() -> SettingsView {
    SettingsView {
        active_player: PlayerType::MPD,
        spotify_settings: SpotifySettingsView {
            enabled: false,
            device_name: Seq::empty(),
            username: Seq::empty(),
            password: Seq::empty(),
            developer_client_id: Seq::empty(),
            developer_secret: Seq::empty(),
            auth_callback_url: Seq::empty(),
            alsa_device_name: Seq::empty(),
        },
        lms_settings: LmsSettingsView {
            enabled: false,
            server_host: Seq::empty(),
            server_port: 0,
            cli_port: 0,
        },
        mpd_settings: MpdSettingsView { enabled: false, server_host: Seq::empty(), server_port: 0 },
        dac_settings: DacSettings { enabled: false, i2c_address: 0 },
        alsa_settings: AlsaSettingsView { available_alsa_pcm_devices: Seq::empty() },
    }
}

impl Default for Settings {
    fn default() -> (settings: Settings)
        ensures
            settings@ == blank_settings(),
    {
        let settings = Settings {
            active_player: PlayerType::MPD,
            spotify_settings: SpotifySettings {
                enabled: false,
                device_name: String::new(),
                username: String::new(),
                password: String::new(),
                developer_client_id: String::new(),
                developer_secret: String::new(),
                auth_callback_url: String::new(),
                alsa_device_name: String::new(),
            },
            lms_settings: LmsSettings {
                enabled: false,
                server_host: String::new(),
                server_port: 0,
                cli_port: 0,
            },
            mpd_settings: MpdSettings {
                enabled: false,
                server_host: String::new(),
                server_port: 0,
            },
            dac_settings: DacSettings { enabled: false, i2c_address: 0 },
            alsa_settings: AlsaSettings { available_alsa_pcm_devices: Vec::new() },
        };
        assert(settings.alsa_settings.available_alsa_pcm_devices.deep_view() =~= Seq::empty());
        settings
    }
}

impl Settings {
    /// A copy of the configuration.
    pub fn copy(&self) -> (copy: Settings)
        ensures
            copy@ == self@,
    {
        Settings {
            active_player: self.active_player,
            spotify_settings: self.spotify_settings.copy(),
            lms_settings: self.lms_settings.copy(),
            mpd_settings: self.mpd_settings.copy(),
            dac_settings: self.dac_settings,
            alsa_settings: self.alsa_settings.copy(),
        }
    }
}

} // verus!

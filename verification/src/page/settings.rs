//! The settings page: the configuration as the user edits it, and what is
//! known of the Spotify account.

use crate::models::player::{filter_named, Command, CommandView, FilterType, PlayerType};
use crate::number::{bounded_decimal, parse_u32};
use crate::models::settings::{Settings, SettingsView};
use crate::models::spotify::{SpotifyAccountInfo, SpotifyAccountInfoView};
use crate::request::{Request, RequestView};
use crate::text::same;
use crate::{Effect, EffectView};
use seed::Url;
use vstd::prelude::*;

verus! {

/// The state of the settings page.
#[derive(Clone, Debug, PartialEq, Eq)]
pub struct Model {
    pub settings: Settings,
    pub waiting_response: bool,
    pub spotify_is_authorized: bool,
    pub spotify_auth_url: Option<String>,
    pub spotify_account_info: Option<SpotifyAccountInfo>,
}

/// The state of the settings page, its texts read as characters.
pub struct ModelView {
    pub settings: SettingsView,
    pub waiting_response: bool,
    pub spotify_is_authorized: bool,
    pub spotify_auth_url: Option<Seq<char>>,
    pub spotify_account_info: Option<SpotifyAccountInfoView>,
}

impl DeepView for Model {
    type V = ModelView;

    open spec fn deep_view(&self) -> ModelView {
        ModelView {
            settings: self.settings@,
            waiting_response: self.waiting_response,
            spotify_is_authorized: self.spotify_is_authorized,
            spotify_auth_url: self.spotify_auth_url.deep_view(),
            spotify_account_info: self.spotify_account_info.deep_view(),
        }
    }
}

impl View for Model {
    type V = ModelView;

    open spec fn view(&self) -> ModelView {
        self.deep_view()
    }
}

/// What the settings page is told.
#[derive(Clone, Debug, PartialEq, Eq)]
pub enum Msg {
    /// The user chose the active player, by its name.
    SelectActivePlayer(String),
    ToggleDacEnabled,
    ToggleSpotifyEnabled,
    ToggleLmsEnabled,
    ToggleMpdEnabled,
    InputMpdHostChange(String),
    InputMpdPortChange(u32),
    InputLMSHostChange,
    InputSpotifyDeviceNameChange(String),
    InputSpotifyUsernameChange(String),
    InputSpotifyPasswordChange(String),
    InputSpotifyDeveloperClientId(String),
    InputSpotifyDeveloperClientSecret(String),
    InputSpotifyAuthCallbackUrl(String),
    InputSpotifyAlsaDeviceName(String),
    /// The backend's answer to whether it may use the Spotify account: the
    /// text `true` where it may.
    SpotifyIsAuthorizedFetched(String),
    SpotifyAccountInfoFetched(SpotifyAccountInfo),
    SpotifyAuthorizationUrlFetched(String),
    /// The user asked to store the configuration.
    SaveSettings,
    /// The answer to storing the configuration; `None` where it failed.
    SettingsSaved(Option<Settings>),
    /// The configuration that the backend holds.
    RemoteConfiguration(Settings),
    /// The user issued a command, and it was written to the channel.
    SendCommand(Command),
}

/// A message of the settings page, its texts read as characters.
pub enum MsgView {
    SelectActivePlayer(Seq<char>),
    ToggleDacEnabled,
    ToggleSpotifyEnabled,
    ToggleLmsEnabled,
    ToggleMpdEnabled,
    InputMpdHostChange(Seq<char>),
    InputMpdPortChange(u32),
    InputLMSHostChange,
    InputSpotifyDeviceNameChange(Seq<char>),
    InputSpotifyUsernameChange(Seq<char>),
    InputSpotifyPasswordChange(Seq<char>),
    InputSpotifyDeveloperClientId(Seq<char>),
    InputSpotifyDeveloperClientSecret(Seq<char>),
    InputSpotifyAuthCallbackUrl(Seq<char>),
    InputSpotifyAlsaDeviceName(Seq<char>),
    SpotifyIsAuthorizedFetched(Seq<char>),
    SpotifyAccountInfoFetched(SpotifyAccountInfoView),
    SpotifyAuthorizationUrlFetched(Seq<char>),
    SaveSettings,
    SettingsSaved(Option<SettingsView>),
    RemoteConfiguration(SettingsView),
    SendCommand(CommandView),
}

impl DeepView for Msg {
    type V = MsgView;

    open spec fn deep_view(&self) -> MsgView {
        match self {
            Msg::SelectActivePlayer(name) => MsgView::SelectActivePlayer(name@),
            Msg::ToggleDacEnabled => MsgView::ToggleDacEnabled,
            Msg::ToggleSpotifyEnabled => MsgView::ToggleSpotifyEnabled,
            Msg::ToggleLmsEnabled => MsgView::ToggleLmsEnabled,
            Msg::ToggleMpdEnabled => MsgView::ToggleMpdEnabled,
            Msg::InputMpdHostChange(value) => MsgView::InputMpdHostChange(value@),
            Msg::InputMpdPortChange(value) => MsgView::InputMpdPortChange(*value),
            Msg::InputLMSHostChange => MsgView::InputLMSHostChange,
            Msg::InputSpotifyDeviceNameChange(value) => MsgView::InputSpotifyDeviceNameChange(
                value@,
            ),
            Msg::InputSpotifyUsernameChange(value) => MsgView::InputSpotifyUsernameChange(value@),
            Msg::InputSpotifyPasswordChange(value) => MsgView::InputSpotifyPasswordChange(value@),
            Msg::InputSpotifyDeveloperClientId(value) => MsgView::InputSpotifyDeveloperClientId(
                value@,
            ),
            Msg::InputSpotifyDeveloperClientSecret(value) => {
                MsgView::InputSpotifyDeveloperClientSecret(value@)
            },
            Msg::InputSpotifyAuthCallbackUrl(value) => MsgView::InputSpotifyAuthCallbackUrl(
                value@,
            ),
            Msg::InputSpotifyAlsaDeviceName(value) => MsgView::InputSpotifyAlsaDeviceName(value@),
            Msg::SpotifyIsAuthorizedFetched(answer) => MsgView::SpotifyIsAuthorizedFetched(
                answer@,
            ),
            Msg::SpotifyAccountInfoFetched(info) => MsgView::SpotifyAccountInfoFetched(info@),
            Msg::SpotifyAuthorizationUrlFetched(address) => {
                MsgView::SpotifyAuthorizationUrlFetched(address@)
            },
            Msg::SaveSettings => MsgView::SaveSettings,
            Msg::SettingsSaved(saved) => MsgView::SettingsSaved(saved.deep_view()),
            Msg::RemoteConfiguration(settings) => MsgView::RemoteConfiguration(settings@),
            Msg::SendCommand(command) => MsgView::SendCommand(command@),
        }
    }
}

impl View for Msg {
    type V = MsgView;

    open spec fn view(&self) -> MsgView {
        self.deep_view()
    }
}

/// The state of a settings page that was just made: a blank configuration
/// until the backend's arrives.
pub open spec fn initial_model() -> ModelView {
    ModelView {
        settings: crate::models::settings::blank_settings(),
        waiting_response: false,
        spotify_is_authorized: false,
        spotify_auth_url: None,
        spotify_account_info: None,
    }
}

/// What a settings page asks for when it is made: the configuration, whether
/// the Spotify account may be used, and the account.
pub open spec fn initial_orders() -> Seq<EffectView> {
    seq![
        EffectView::Fetch(RequestView::Settings),
        EffectView::Fetch(RequestView::SpotifyIsAuthorized),
        EffectView::Fetch(RequestView::SpotifyAccountInfo),
    ]
}

impl SettingsView {
    /// The configuration after the message of an edit; other messages leave
    /// it as it is. A name that is no player's leaves the active player as it
    /// is.
    pub open spec fn edited(self, msg: MsgView) -> SettingsView {
        let spotify = self.spotify_settings;
        let mpd = self.mpd_settings;
        match msg {
            MsgView::SelectActivePlayer(name) => match crate::models::player::player_type_named(
                name,
            ) {
                Some(player) => SettingsView { active_player: player, ..self },
                None => self,
            },
            MsgView::ToggleDacEnabled => SettingsView {
                dac_settings: crate::models::settings::DacSettings {
                    enabled: !self.dac_settings.enabled,
                    ..self.dac_settings
                },
                ..self
            },
            MsgView::ToggleSpotifyEnabled => SettingsView {
                spotify_settings: crate::models::settings::SpotifySettingsView {
                    enabled: !spotify.enabled,
                    ..spotify
                },
                ..self
            },
            MsgView::ToggleLmsEnabled => SettingsView {
                lms_settings: crate::models::settings::LmsSettingsView {
                    enabled: !self.lms_settings.enabled,
                    ..self.lms_settings
                },
                ..self
            },
            MsgView::ToggleMpdEnabled => SettingsView {
                mpd_settings: crate::models::settings::MpdSettingsView {
                    enabled: !mpd.enabled,
                    ..mpd
                },
                ..self
            },
            MsgView::InputMpdHostChange(value) => SettingsView {
                mpd_settings: crate::models::settings::MpdSettingsView {
                    server_host: value,
                    ..mpd
                },
                ..self
            },
            MsgView::InputMpdPortChange(value) => SettingsView {
                mpd_settings: crate::models::settings::MpdSettingsView {
                    server_port: value,
                    ..mpd
                },
                ..self
            },
            MsgView::InputSpotifyDeviceNameChange(value) => SettingsView {
                spotify_settings: crate::models::settings::SpotifySettingsView {
                    device_name: value,
                    ..spotify
                },
                ..self
            },
            MsgView::InputSpotifyUsernameChange(value) => SettingsView {
                spotify_settings: crate::models::settings::SpotifySettingsView {
                    username: value,
                    ..spotify
                },
                ..self
            },
            MsgView::InputSpotifyPasswordChange(value) => SettingsView {
                spotify_settings: crate::models::settings::SpotifySettingsView {
                    password: value,
                    ..spotify
                },
                ..self
            },
            MsgView::InputSpotifyDeveloperClientId(value) => SettingsView {
                spotify_settings: crate::models::settings::SpotifySettingsView {
                    developer_client_id: value,
                    ..spotify
                },
                ..self
            },
            MsgView::InputSpotifyDeveloperClientSecret(value) => SettingsView {
                spotify_settings: crate::models::settings::SpotifySettingsView {
                    developer_secret: value,
                    ..spotify
                },
                ..self
            },
            MsgView::InputSpotifyAuthCallbackUrl(value) => SettingsView {
                spotify_settings: crate::models::settings::SpotifySettingsView {
                    auth_callback_url: value,
                    ..spotify
                },
                ..self
            },
            MsgView::InputSpotifyAlsaDeviceName(value) => SettingsView {
                spotify_settings: crate::models::settings::SpotifySettingsView {
                    alsa_device_name: value,
                    ..spotify
                },
                ..self
            },
            MsgView::RemoteConfiguration(settings) => settings,
            _ => self,
        }
    }
}

impl ModelView {
    /// The state after `msg`.
    pub open spec fn updated(self, msg: MsgView) -> ModelView {
        match msg {
            MsgView::SaveSettings => ModelView { waiting_response: true, ..self },
            MsgView::SettingsSaved(_) => ModelView { waiting_response: false, ..self },
            MsgView::SpotifyIsAuthorizedFetched(answer) => ModelView {
                spotify_is_authorized: answer == "true"@,
                ..self
            },
            MsgView::SpotifyAuthorizationUrlFetched(address) => ModelView {
                spotify_auth_url: Some(address),
                ..self
            },
            MsgView::SpotifyAccountInfoFetched(info) => ModelView {
                spotify_account_info: Some(info),
                ..self
            },
            _ => ModelView { settings: self.settings.edited(msg), ..self },
        }
    }

    /// What `msg` asks for: to store the configuration, or, where the
    /// backend may not use the Spotify account, the address at which the user
    /// can allow it.
    pub open spec fn orders(self, msg: MsgView) -> Seq<EffectView> {
        match msg {
            MsgView::SaveSettings => seq![
                EffectView::Fetch(RequestView::SaveSettings(self.settings)),
            ],
            MsgView::SpotifyIsAuthorizedFetched(answer) => if answer == "true"@ {
                Seq::empty()
            } else {
                seq![EffectView::Fetch(RequestView::SpotifyAuthorizationUrl)]
            },
            _ => Seq::empty(),
        }
    }
}

/// Makes the settings page and asks for what it shows.
pub fn init(_url: Url) -> (made: (Model, Vec<Effect>))
    ensures
        made.0@ == initial_model(),
        made.1.deep_view() == initial_orders(),
{
    let model = Model {
        settings: Settings::default(),
        waiting_response: false,
        spotify_is_authorized: false,
        spotify_auth_url: None,
        spotify_account_info: None,
    };
    let mut effects: Vec<Effect> = Vec::new();
    effects.push(Effect::Fetch(Request::Settings));
    effects.push(Effect::Fetch(Request::SpotifyIsAuthorized));
    effects.push(Effect::Fetch(Request::SpotifyAccountInfo));
    (model, effects)
}

/// Takes a message in: changes the page's state and says what to do.
pub fn update(msg: Msg, model: &mut Model) -> (effects: Vec<Effect>)
    ensures
        final(model)@ == old(model)@.updated(msg@),
        effects.deep_view() == old(model)@.orders(msg@),
{
    let mut effects: Vec<Effect> = Vec::new();
    match msg {
        Msg::SaveSettings => {
            effects.push(Effect::Fetch(Request::SaveSettings(model.settings.copy())));
            model.waiting_response = true;
        },
        Msg::SelectActivePlayer(name) => {
            match PlayerType::parse(name.as_str()) {
                Some(player) => {
                    model.settings.active_player = player;
                },
                None => {},
            }
        },
        Msg::ToggleDacEnabled => {
            model.settings.dac_settings.enabled = !model.settings.dac_settings.enabled;
        },
        Msg::ToggleSpotifyEnabled => {
            model.settings.spotify_settings.enabled = !model.settings.spotify_settings.enabled;
        },
        Msg::ToggleLmsEnabled => {
            model.settings.lms_settings.enabled = !model.settings.lms_settings.enabled;
        },
        Msg::ToggleMpdEnabled => {
            model.settings.mpd_settings.enabled = !model.settings.mpd_settings.enabled;
        },
        Msg::InputMpdHostChange(value) => {
            model.settings.mpd_settings.server_host = value;
        },
        Msg::InputMpdPortChange(value) => {
            model.settings.mpd_settings.server_port = value;
        },
        Msg::InputLMSHostChange => {},
        Msg::InputSpotifyDeviceNameChange(value) => {
            model.settings.spotify_settings.device_name = value;
        },
        Msg::InputSpotifyUsernameChange(value) => {
            model.settings.spotify_settings.username = value;
        },
        Msg::InputSpotifyPasswordChange(value) => {
            model.settings.spotify_settings.password = value;
        },
        Msg::InputSpotifyDeveloperClientId(value) => {
            model.settings.spotify_settings.developer_client_id = value;
        },
        Msg::InputSpotifyDeveloperClientSecret(value) => {
            model.settings.spotify_settings.developer_secret = value;
        },
        Msg::InputSpotifyAuthCallbackUrl(value) => {
            model.settings.spotify_settings.auth_callback_url = value;
        },
        Msg::InputSpotifyAlsaDeviceName(value) => {
            model.settings.spotify_settings.alsa_device_name = value;
        },
        Msg::SpotifyIsAuthorizedFetched(answer) => {
            if same(answer.as_str(), "true") {
                model.spotify_is_authorized = true;
            } else {
                model.spotify_is_authorized = false;
                effects.push(Effect::Fetch(Request::SpotifyAuthorizationUrl));
            }
        },
        Msg::SpotifyAuthorizationUrlFetched(address) => {
            model.spotify_auth_url = Some(address);
        },
        Msg::SpotifyAccountInfoFetched(info) => {
            model.spotify_account_info = Some(info);
        },
        Msg::RemoteConfiguration(settings) => {
            model.settings = settings;
        },
        Msg::SettingsSaved(_) => {
            model.waiting_response = false;
        },
        Msg::SendCommand(_) => {},
    }
    effects
}

/// The port that the user typed, zero where it is no number that fits.
pub open spec fn port_of(input: Seq<char>) -> u32 {
    match bounded_decimal(input, u32::MAX as nat) {
        Some(port) => port as u32,
        None => 0,
    }
}

/// The message of an edit of the daemon's port.
pub fn mpd_port_input(input: &str) -> (msg: Msg)
    ensures
        msg@ == MsgView::InputMpdPortChange(port_of(input@)),
{
    match parse_u32(input) {
        Some(port) => Msg::InputMpdPortChange(port),
        None => Msg::InputMpdPortChange(0),
    }
}

/// The message of the choice of a filter by its name: the command that
/// sets it. A name that is no filter's gives none.
pub fn filter_input(input: &str) -> (msg: Option<Msg>)
    ensures
        msg.deep_view() == match filter_named(input@) {
            Some(filter) => Some(MsgView::SendCommand(CommandView::Filter(filter))),
            None => None,
        },
{
    match FilterType::parse(input) {
        Some(filter) => Some(Msg::SendCommand(Command::Filter(filter))),
        None => None,
    }
}

} // verus!

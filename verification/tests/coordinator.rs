use dplayer_ui::models::player::{Command, PlayerState, PlayerInfo, Song, StatusChangeEvent, LastStatus};
use dplayer_ui::page::{player, playlist, queue, settings};
use dplayer_ui::request::Request;
use dplayer_ui::route::PageKind;
use dplayer_ui::session::{Action, ChannelUnavailable, Session, Status, TimerHandle};
use dplayer_ui::{
    decode_message, init, update, CloseEvent, DecodeError, Effect, Frame, Model, Msg, Page, Urls,
};
use seed::Url;

fn song(title: &str, position: u32) -> Song {
    Song {
        title: Some(title.to_string()),
        album: None,
        artist: None,
        genre: None,
        date: None,
        file: String::new(),
        uri: None,
        position: Some(position),
    }
}

fn closed(clean: bool) -> Msg {
    Msg::WebSocketClosed {
        event: CloseEvent { was_clean: clean, code: 1006, reason: String::new() },
        jitter_ms: 0,
    }
}

fn started(url: Url) -> Model {
    init(url).0
}

fn track_changed() -> StatusChangeEvent {
    StatusChangeEvent::CurrentTrackInfoChanged(song("A", 0))
}

#[test]
fn the_client_starts_with_its_page_and_opens_the_channel() {
    let url = Urls::queue_abs();
    let (model, effects) = init(url.clone());
    assert_eq!(model.base_url, url);
    assert_eq!(model.page.kind(), PageKind::Queue);
    assert_eq!(model.session, Session::open());
    assert_eq!(
        effects,
        vec![
            Effect::SubscribeUrlChanged,
            Effect::Dispatch(Msg::UrlChanged(url)),
            Effect::Fetch(Request::QueueItems),
            Effect::Channel(Action::OpenChannel),
        ]
    );
}

#[test]
fn the_client_keeps_the_base_of_its_first_location() {
    let mut url = Url::new().add_path_part("ui").add_path_part("deep").add_hash_path_part("queue");
    assert_eq!(url.next_path_part(), Some("ui"));
    let (model, _) = init(url.clone());
    assert_eq!(model.base_url, url.to_base_url());
    assert_eq!(model.base_url.path(), ["ui".to_string()]);
    assert_eq!(model.base_url.hash_path(), ["queue".to_string()]);
}

#[test]
fn navigating_to_the_queue_fetches_it_and_keeps_the_order() {
    let mut model = started(Url::new());
    let effects = update(Msg::UrlChanged(Urls::queue_abs()), &mut model);
    assert_eq!(effects, Ok(vec![Effect::Fetch(Request::QueueItems)]));
    assert_eq!(
        model.page,
        Page::Queue(queue::Model { queue_items: vec![], waiting_response: true })
    );
    let items = vec![song("A", 0), song("B", 1)];
    let effects =
        update(Msg::Queue(queue::Msg::PlaylistItemsFetched(Some(items.clone()))), &mut model);
    assert_eq!(effects, Ok(vec![]));
    assert_eq!(
        model.page,
        Page::Queue(queue::Model { queue_items: items, waiting_response: false })
    );
}

#[test]
fn a_command_on_a_closed_channel_fails_and_changes_nothing() {
    let mut model = started(Urls::queue_abs());
    update(
        Msg::Queue(queue::Msg::PlaylistItemsFetched(Some(vec![song("A", 0), song("B", 1)]))),
        &mut model,
    )
    .unwrap();
    update(Msg::WebSocketOpened, &mut model).unwrap();
    update(closed(true), &mut model).unwrap();
    assert_eq!(model.session.status(), Status::Closed);
    let before = model.clone();
    let outcome = update(Msg::Queue(queue::Msg::SendCommand(Command::PlayAt(1))), &mut model);
    assert_eq!(outcome, Err(ChannelUnavailable));
    assert_eq!(model, before);
}

#[test]
fn a_command_on_an_open_channel_is_written() {
    let mut model = started(Urls::queue_abs());
    update(Msg::WebSocketOpened, &mut model).unwrap();
    let before = model.clone();
    let outcome = update(Msg::Queue(queue::Msg::SendCommand(Command::PlayAt(1))), &mut model);
    assert_eq!(outcome, Ok(vec![Effect::SendJson(Command::PlayAt(1))]));
    assert_eq!(model, before);
}

#[test]
fn a_command_is_refused_while_connecting_or_failed() {
    let mut model = started(Urls::player_abs());
    let before = model.clone();
    let command = Msg::Player(player::Msg::SendCommand(Command::SetVol(9)));
    assert_eq!(update(command.clone(), &mut model), Err(ChannelUnavailable));
    assert_eq!(model, before);
    update(Msg::WebSocketFailed { jitter_ms: 0 }, &mut model).unwrap();
    let before = model.clone();
    assert_eq!(update(command, &mut model), Err(ChannelUnavailable));
    assert_eq!(model, before);
}

#[test]
fn each_page_writes_its_commands_and_then_follows_them() {
    let mut model = started(Urls::player_abs());
    update(Msg::WebSocketOpened, &mut model).unwrap();
    let outcome = update(Msg::Player(player::Msg::SendCommand(Command::SetVol(222))), &mut model);
    assert_eq!(outcome, Ok(vec![Effect::SendJson(Command::SetVol(222))]));
    match &model.page {
        Page::Player(page) => assert_eq!(page.streamer_status.dac_status.volume, 222),
        _ => panic!("the player page was expected"),
    }

    update(Msg::UrlChanged(Urls::settings_abs()), &mut model).unwrap();
    let outcome = update(Msg::Settings(settings::Msg::SendCommand(Command::VolUp)), &mut model);
    assert_eq!(outcome, Ok(vec![Effect::SendJson(Command::VolUp)]));

    update(Msg::UrlChanged(Urls::playlist_abs()), &mut model).unwrap();
    let load = Command::LoadPlaylist("jazz".to_string());
    let outcome = update(Msg::Playlist(playlist::Msg::SendCommand(load.clone())), &mut model);
    assert_eq!(outcome, Ok(vec![Effect::SendJson(load)]));
}

#[test]
fn a_command_for_another_page_is_dropped_not_refused() {
    let mut model = started(Urls::queue_abs());
    let before = model.clone();
    let outcome = update(Msg::Player(player::Msg::SendCommand(Command::Play)), &mut model);
    assert_eq!(outcome, Ok(vec![]));
    assert_eq!(model, before);
    update(Msg::WebSocketOpened, &mut model).unwrap();
    let before = model.clone();
    let outcome = update(Msg::Player(player::Msg::SendCommand(Command::Play)), &mut model);
    assert_eq!(outcome, Ok(vec![]));
    assert_eq!(model, before);
}

#[test]
fn unclean_close_then_opened_cancels_the_timer() {
    let mut model = started(Url::new());
    update(Msg::WebSocketOpened, &mut model).unwrap();
    let effects = update(closed(false), &mut model);
    assert_eq!(
        effects,
        Ok(vec![Effect::Channel(Action::StartTimer { handle: TimerHandle(0), delay_ms: 1000 })])
    );
    assert_eq!(model.session.retry_count(), 1);
    assert_eq!(model.session.reconnect_handle(), Some(TimerHandle(0)));

    let effects = update(Msg::WebSocketOpened, &mut model);
    assert_eq!(effects, Ok(vec![Effect::Channel(Action::CancelTimer(TimerHandle(0)))]));
    assert_eq!(model.session.status(), Status::Open);
    assert_eq!(model.session.retry_count(), 0);
    assert_eq!(model.session.reconnect_handle(), None);

    let before = model.clone();
    let effects = update(Msg::ReconnectWebSocket(TimerHandle(0)), &mut model);
    assert_eq!(effects, Ok(vec![]));
    assert_eq!(model, before);
}

#[test]
fn the_timer_reopens_the_channel() {
    let mut model = started(Url::new());
    let effects = update(Msg::WebSocketFailed { jitter_ms: 400 }, &mut model);
    assert_eq!(
        effects,
        Ok(vec![Effect::Channel(Action::StartTimer { handle: TimerHandle(0), delay_ms: 1400 })])
    );
    let effects = update(Msg::ReconnectWebSocket(TimerHandle(0)), &mut model);
    assert_eq!(effects, Ok(vec![Effect::Channel(Action::OpenChannel)]));
    assert_eq!(model.session.status(), Status::Connecting);
    let effects = update(Msg::WebSocketFailed { jitter_ms: 0 }, &mut model);
    assert_eq!(
        effects,
        Ok(vec![Effect::Channel(Action::StartTimer { handle: TimerHandle(1), delay_ms: 2000 })])
    );
}

#[test]
fn user_close_closes_the_channel() {
    let mut model = started(Url::new());
    update(Msg::WebSocketOpened, &mut model).unwrap();
    let effects = update(Msg::CloseWebSocket, &mut model);
    assert_eq!(effects, Ok(vec![Effect::Channel(Action::CloseChannel)]));
    assert_eq!(model.session.status(), Status::Closed);
    assert_eq!(update(closed(true), &mut model), Ok(vec![]));
    assert_eq!(update(closed(false), &mut model), Ok(vec![]));
    assert_eq!(model.session.reconnect_handle(), None);
}

#[test]
fn channel_messages_leave_the_page_alone() {
    let mut model = started(Urls::queue_abs());
    update(Msg::Queue(queue::Msg::PlaylistItemsFetched(Some(vec![song("A", 0)]))), &mut model)
        .unwrap();
    let page = model.page.clone();
    for msg in [
        Msg::WebSocketOpened,
        closed(false),
        Msg::ReconnectWebSocket(TimerHandle(0)),
        Msg::WebSocketFailed { jitter_ms: 3 },
        Msg::CloseWebSocket,
    ] {
        update(msg, &mut model).unwrap();
        assert_eq!(model.page, page);
    }
}

#[test]
fn a_status_event_reaches_the_player_page_only() {
    let mut model = started(Urls::player_abs());
    let effects = update(Msg::StatusChangeEventReceived(track_changed()), &mut model).unwrap();
    assert_eq!(effects.len(), 1);
    match &model.page {
        Page::Player(page) => assert_eq!(page.current_track_info, Some(song("A", 0))),
        _ => panic!("the player page was expected"),
    }
    for url in [
        Urls::queue_abs(),
        Urls::playlist_abs(),
        Urls::settings_abs(),
        Url::new().add_hash_path_part("setup"),
        Url::new().add_hash_path_part("nowhere"),
    ] {
        let mut model = started(url);
        let before = model.clone();
        for event in [
            track_changed(),
            StatusChangeEvent::Error("e".to_string()),
            StatusChangeEvent::PlayerInfoChanged(PlayerInfo {
                audio_format_rate: None,
                audio_format_bit: None,
                audio_format_channels: None,
                random: None,
                state: Some(PlayerState::PLAYING),
                time: (0, 0),
            }),
        ] {
            let effects = update(Msg::StatusChangeEventReceived(event), &mut model);
            assert_eq!(effects, Ok(vec![]));
            assert_eq!(model, before);
        }
    }
}

#[test]
fn a_page_message_reaches_its_own_page_only() {
    let mut model = started(Urls::settings_abs());
    let before = model.clone();
    let strays = vec![
        Msg::Queue(queue::Msg::PlaylistItemsFetched(Some(vec![song("A", 0)]))),
        Msg::Playlist(playlist::Msg::SelectPlaylist("x".to_string())),
        Msg::Playlist(playlist::Msg::LoadPlaylistIntoQueue),
        Msg::Player(player::Msg::AlbumImageUpdated(player::no_album_image())),
    ];
    for stray in strays {
        assert_eq!(update(stray, &mut model), Ok(vec![]));
        assert_eq!(model, before);
    }
    let mut model = started(Urls::queue_abs());
    let before = model.clone();
    assert_eq!(update(Msg::Settings(settings::Msg::SaveSettings), &mut model), Ok(vec![]));
    assert_eq!(update(Msg::Settings(settings::Msg::ToggleDacEnabled), &mut model), Ok(vec![]));
    assert_eq!(model, before);
}

#[test]
fn a_late_answer_for_the_player_leaves_the_settings_alone() {
    let mut model = started(Url::new());
    let effects = update(Msg::UrlChanged(Urls::player_abs()), &mut model);
    assert_eq!(effects, Ok(vec![Effect::Fetch(Request::CurrentStatus)]));
    update(Msg::UrlChanged(Urls::settings_abs()), &mut model).unwrap();
    update(Msg::Settings(settings::Msg::ToggleDacEnabled), &mut model).unwrap();
    let before = model.clone();
    let late = Msg::Player(player::Msg::CurrentStatusFetched(Some(LastStatus {
        current_track_info: Some(song("A", 0)),
        player_info: None,
        streamer_status: None,
    })));
    assert_eq!(update(late, &mut model), Ok(vec![]));
    assert_eq!(model, before);
    assert_eq!(update(Msg::Player(player::Msg::CurrentStatusFetched(None)), &mut model), Ok(vec![]));
    assert_eq!(model, before);
}

#[test]
fn navigating_to_the_same_page_makes_it_anew() {
    let mut model = started(Urls::queue_abs());
    update(Msg::Queue(queue::Msg::PlaylistItemsFetched(Some(vec![song("A", 0)]))), &mut model)
        .unwrap();
    let effects = update(Msg::UrlChanged(Urls::queue_abs()), &mut model);
    assert_eq!(effects, Ok(vec![Effect::Fetch(Request::QueueItems)]));
    assert_eq!(
        model.page,
        Page::Queue(queue::Model { queue_items: vec![], waiting_response: true })
    );
}

#[test]
fn navigation_leaves_the_session_alone() {
    let mut model = started(Url::new());
    update(Msg::WebSocketFailed { jitter_ms: 0 }, &mut model).unwrap();
    let session = model.session;
    let base = model.base_url.clone();
    update(Msg::UrlChanged(Urls::settings_abs()), &mut model).unwrap();
    update(Msg::UrlChanged(Url::new().add_hash_path_part("x")), &mut model).unwrap();
    assert_eq!(model.page, Page::NotFound);
    assert_eq!(model.session, session);
    assert_eq!(model.base_url, base);
}

#[test]
fn the_playlist_command_comes_back_and_is_written() {
    let mut model = started(Urls::playlist_abs());
    update(Msg::WebSocketOpened, &mut model).unwrap();
    update(Msg::Playlist(playlist::Msg::SelectPlaylist("jazz".to_string())), &mut model).unwrap();
    let effects = update(Msg::Playlist(playlist::Msg::LoadPlaylistIntoQueue), &mut model).unwrap();
    assert_eq!(effects.len(), 1);
    match effects.into_iter().next() {
        Some(Effect::Dispatch(msg)) => {
            let written = update(msg, &mut model);
            assert_eq!(
                written,
                Ok(vec![Effect::SendJson(Command::LoadPlaylist("jazz".to_string()))])
            );
        }
        _ => panic!("a message to hand back in was expected"),
    }
}

#[test]
fn frames_are_decoded_or_dropped() {
    assert_eq!(
        decode_message(Frame::Text(Some(track_changed()))),
        Ok(Some(Msg::StatusChangeEventReceived(track_changed())))
    );
    assert_eq!(decode_message(Frame::Text(None)), Err(DecodeError));
    assert_eq!(decode_message(Frame::Binary), Ok(None));
}

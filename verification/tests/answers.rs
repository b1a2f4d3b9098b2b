use dplayer_ui::answer::Answer;
use dplayer_ui::models::player::{LastStatus, Song};
use dplayer_ui::models::playlist::Playlist;
use dplayer_ui::models::settings::Settings;
use dplayer_ui::models::spotify::SpotifyAccountInfo;
use dplayer_ui::page::player::{no_album_image, Album, AlbumInfo, Image};
use dplayer_ui::page::{player, playlist, queue, settings};
use dplayer_ui::request::Request;
use dplayer_ui::{init, update, Msg, Page, Urls};

fn song(title: &str, position: u32) -> Song {
    Song {
        title: Some(title.to_string()),
        album: None,
        artist: None,
        genre: None,
        date: None,
        file: String::new(),
        uri: None,
        position: Some(position),
    }
}

fn status() -> LastStatus {
    LastStatus { current_track_info: Some(song("A", 0)), player_info: None, streamer_status: None }
}

fn album() -> AlbumInfo {
    AlbumInfo {
        album: Album {
            image: vec![Image { size: "mega".to_string(), text: "http://img/m.png".to_string() }],
        },
    }
}

fn every_request() -> Vec<Request> {
    vec![
        Request::CurrentStatus,
        Request::Playlists,
        Request::PlaylistItems("x".to_string()),
        Request::QueueItems,
        Request::Settings,
        Request::SaveSettings(Settings::default()),
        Request::SpotifyIsAuthorized,
        Request::SpotifyAuthorizationUrl,
        Request::SpotifyAccountInfo,
        Request::AlbumInfo { album: "a".to_string(), artist: "b".to_string() },
    ]
}

#[test]
fn answers_become_the_messages_of_their_pages() {
    assert_eq!(
        Request::CurrentStatus.reported(Some(Answer::Status(status()))),
        Some(Msg::Player(player::Msg::CurrentStatusFetched(Some(status()))))
    );
    let lists = vec![Playlist { id: "1".to_string(), name: "Rock".to_string() }];
    assert_eq!(
        Request::Playlists.reported(Some(Answer::Playlists(lists.clone()))),
        Some(Msg::Playlist(playlist::Msg::PlaylistsFetched(Some(lists))))
    );
    let songs = vec![song("A", 0), song("B", 1)];
    assert_eq!(
        Request::PlaylistItems("1".to_string()).reported(Some(Answer::Songs(songs.clone()))),
        Some(Msg::Playlist(playlist::Msg::PlaylistItemsFetched(Some(songs.clone()))))
    );
    assert_eq!(
        Request::QueueItems.reported(Some(Answer::Songs(songs.clone()))),
        Some(Msg::Queue(queue::Msg::PlaylistItemsFetched(Some(songs))))
    );
    let mut remote = Settings::default();
    remote.mpd_settings.server_port = 6600;
    assert_eq!(
        Request::Settings.reported(Some(Answer::Settings(remote.clone()))),
        Some(Msg::Settings(settings::Msg::RemoteConfiguration(remote.clone())))
    );
    assert_eq!(
        Request::SaveSettings(Settings::default()).reported(Some(Answer::Settings(remote.clone()))),
        Some(Msg::Settings(settings::Msg::SettingsSaved(Some(remote))))
    );
    assert_eq!(
        Request::SpotifyIsAuthorized.reported(Some(Answer::Text("true".to_string()))),
        Some(Msg::Settings(settings::Msg::SpotifyIsAuthorizedFetched("true".to_string())))
    );
    assert_eq!(
        Request::SpotifyAuthorizationUrl.reported(Some(Answer::Text("http://a".to_string()))),
        Some(Msg::Settings(settings::Msg::SpotifyAuthorizationUrlFetched("http://a".to_string())))
    );
    let account = SpotifyAccountInfo { display_name: Some("me".to_string()), image_url: None };
    assert_eq!(
        Request::SpotifyAccountInfo.reported(Some(Answer::Account(account.clone()))),
        Some(Msg::Settings(settings::Msg::SpotifyAccountInfoFetched(account)))
    );
    assert_eq!(
        Request::AlbumInfo { album: "a".to_string(), artist: "b".to_string() }
            .reported(Some(Answer::Album(album()))),
        Some(Msg::Player(player::Msg::AlbumImageUpdated(Image {
            size: "mega".to_string(),
            text: "http://img/m.png".to_string(),
        })))
    );
}

fn failure_report(request: &Request) -> Option<Msg> {
    match request {
        Request::CurrentStatus => Some(Msg::Player(player::Msg::CurrentStatusFetched(None))),
        Request::Playlists => Some(Msg::Playlist(playlist::Msg::PlaylistsFetched(None))),
        Request::PlaylistItems(_) => Some(Msg::Playlist(playlist::Msg::PlaylistItemsFetched(None))),
        Request::QueueItems => Some(Msg::Queue(queue::Msg::PlaylistItemsFetched(None))),
        Request::SaveSettings(_) => Some(Msg::Settings(settings::Msg::SettingsSaved(None))),
        Request::AlbumInfo { .. } => {
            Some(Msg::Player(player::Msg::AlbumImageUpdated(no_album_image())))
        }
        _ => None,
    }
}

#[test]
fn failed_requests_are_reported_where_a_page_waits() {
    for request in every_request() {
        assert_eq!(request.reported(None), failure_report(&request));
    }
}

/// Whether `answer` has the shape that `request` asks for.
fn fits(request: &Request, answer: &Answer) -> bool {
    matches!(
        (request, answer),
        (Request::CurrentStatus, Answer::Status(_))
            | (Request::Playlists, Answer::Playlists(_))
            | (Request::PlaylistItems(_), Answer::Songs(_))
            | (Request::QueueItems, Answer::Songs(_))
            | (Request::Settings, Answer::Settings(_))
            | (Request::SaveSettings(_), Answer::Settings(_))
            | (Request::SpotifyIsAuthorized, Answer::Text(_))
            | (Request::SpotifyAuthorizationUrl, Answer::Text(_))
            | (Request::SpotifyAccountInfo, Answer::Account(_))
            | (Request::AlbumInfo { .. }, Answer::Album(_))
    )
}

#[test]
fn an_answer_of_another_shape_counts_as_a_failure() {
    let answers = vec![
        Answer::Status(status()),
        Answer::Playlists(vec![]),
        Answer::Songs(vec![]),
        Answer::Settings(Settings::default()),
        Answer::Text(String::new()),
        Answer::Account(SpotifyAccountInfo { display_name: None, image_url: None }),
        Answer::Album(album()),
    ];
    let mut fitting = 0;
    for request in every_request() {
        for answer in answers.iter() {
            if fits(&request, answer) {
                fitting += 1;
                assert_ne!(request.reported(Some(answer.clone())), None);
                assert_ne!(request.reported(Some(answer.clone())), request.reported(None));
            } else {
                assert_eq!(request.reported(Some(answer.clone())), failure_report(&request));
            }
        }
    }
    assert_eq!(fitting, 10);
}

#[test]
fn the_queue_answer_fills_the_queue_page() {
    let (mut model, effects) = init(Urls::queue_abs());
    assert!(effects.contains(&dplayer_ui::Effect::Fetch(Request::QueueItems)));
    assert_eq!(Request::QueueItems.address(""), "/api/queue");
    let songs = vec![song("A", 0), song("B", 1)];
    let msg = Request::QueueItems.reported(Some(Answer::Songs(songs.clone()))).unwrap();
    assert_eq!(update(msg, &mut model), Ok(vec![]));
    assert_eq!(
        model.page,
        Page::Queue(queue::Model { queue_items: songs, waiting_response: false })
    );
}

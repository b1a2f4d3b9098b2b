use dplayer_ui::models::player::{
    clock, AudioOut, Command, DacStatus, FilterType, PlayerInfo, Song,
};
use dplayer_ui::number::{decimal, parse_u32, parse_u8, parse_unsigned};
use dplayer_ui::page::player::{
    audio_format, audio_out_icon, shuffle_icon, volume_command, volume_label,
};
use dplayer_ui::page::queue::{play_item, Msg as QueueMsg};
use dplayer_ui::page::settings::{filter_input, mpd_port_input, Msg as SettingsMsg};

#[test]
fn digits_are_read_as_a_number() {
    assert_eq!(parse_unsigned("0", 10), Some(0));
    assert_eq!(parse_unsigned("7", 10), Some(7));
    assert_eq!(parse_unsigned("10", 10), Some(10));
    assert_eq!(parse_unsigned("007", 10), Some(7));
    assert_eq!(parse_unsigned("+9", 10), Some(9));
    assert_eq!(parse_unsigned("1234567890", u64::MAX), Some(1234567890));
    assert_eq!(parse_unsigned("18446744073709551615", u64::MAX), Some(u64::MAX));
}

#[test]
fn numbers_over_the_limit_are_not_read() {
    assert_eq!(parse_unsigned("11", 10), None);
    assert_eq!(parse_unsigned("100", 10), None);
    assert_eq!(parse_unsigned("1", 0), None);
    assert_eq!(parse_unsigned("0", 0), Some(0));
    assert_eq!(parse_unsigned("000", 0), Some(0));
    assert_eq!(parse_unsigned("18446744073709551616", u64::MAX), None);
    assert_eq!(parse_unsigned("99999999999999999999999", u64::MAX), None);
}

#[test]
fn anything_but_digits_is_not_read() {
    for text in ["", "+", "-", "-1", "++1", "1+", " 1", "1 ", "1.0", "0x1", "a", "1a", "١", "1é", "é", "+é"] {
        assert_eq!(parse_unsigned(text, u64::MAX), None);
        assert_eq!(parse_unsigned(text, u64::MAX), text.parse::<u64>().ok());
    }
}

#[test]
fn reading_agrees_with_the_standard_reader() {
    for text in ["0", "255", "256", "+255", "+256", "0255", "00000256", "4294967295", "4294967296", "12", "+0"] {
        assert_eq!(parse_u8(text), text.parse::<u8>().ok());
        assert_eq!(parse_u32(text), text.parse::<u32>().ok());
    }
}

#[test]
fn volume_is_a_number_up_to_255() {
    assert_eq!(volume_command("140"), Some(Command::SetVol(140)));
    assert_eq!(volume_command("255"), Some(Command::SetVol(255)));
    assert_eq!(volume_command("0"), Some(Command::SetVol(0)));
    assert_eq!(volume_command("256"), None);
    assert_eq!(volume_command(""), None);
    assert_eq!(volume_command("loud"), None);
    assert_eq!(volume_command("-1"), None);
}

#[test]
fn a_port_that_is_no_number_counts_as_zero() {
    assert_eq!(mpd_port_input("6600"), SettingsMsg::InputMpdPortChange(6600));
    assert_eq!(mpd_port_input("4294967295"), SettingsMsg::InputMpdPortChange(u32::MAX));
    assert_eq!(mpd_port_input("4294967296"), SettingsMsg::InputMpdPortChange(0));
    assert_eq!(mpd_port_input(""), SettingsMsg::InputMpdPortChange(0));
    assert_eq!(mpd_port_input("66oo"), SettingsMsg::InputMpdPortChange(0));
}

#[test]
fn a_filter_is_chosen_by_its_name() {
    assert_eq!(
        filter_input("SuperSlow"),
        Some(SettingsMsg::SendCommand(Command::Filter(FilterType::SuperSlow)))
    );
    for filter in FilterType::all() {
        assert_eq!(
            filter_input(filter.name()),
            Some(SettingsMsg::SendCommand(Command::Filter(filter)))
        );
    }
    assert_eq!(filter_input("Brickwall"), None);
    assert_eq!(filter_input(""), None);
}

#[test]
fn play_this_starts_at_the_place_of_the_song() {
    let mut song = Song {
        title: None,
        album: None,
        artist: None,
        genre: None,
        date: None,
        file: "a".to_string(),
        uri: None,
        position: Some(3),
    };
    assert_eq!(play_item(&song), QueueMsg::SendCommand(Command::PlayAt(3)));
    song.position = None;
    assert_eq!(play_item(&song), QueueMsg::SendCommand(Command::PlayAt(0)));
}

#[test]
fn icons_follow_the_state() {
    assert_eq!(audio_out_icon(AudioOut::SPKR), "speaker");
    assert_eq!(audio_out_icon(AudioOut::HEAD), "headset");
    let mut info = PlayerInfo {
        audio_format_rate: None,
        audio_format_bit: None,
        audio_format_channels: None,
        random: None,
        state: None,
        time: (0, 0),
    };
    assert_eq!(shuffle_icon(None), "shuffle");
    assert_eq!(shuffle_icon(Some(info)), "format_list_numbered");
    info.random = Some(false);
    assert_eq!(shuffle_icon(Some(info)), "format_list_numbered");
    info.random = Some(true);
    assert_eq!(shuffle_icon(Some(info)), "shuffle");
}

#[test]
fn numbers_are_written_in_decimal() {
    assert_eq!(decimal(0), "0");
    assert_eq!(decimal(7), "7");
    assert_eq!(decimal(10), "10");
    assert_eq!(decimal(44100), "44100");
    assert_eq!(decimal(u64::MAX), "18446744073709551615");
    for value in [0u64, 1, 9, 10, 99, 100, 255, 256, 65535, 4294967295, u64::MAX] {
        let text = decimal(value);
        assert_eq!(text, value.to_string());
        assert_eq!(parse_unsigned(&text, u64::MAX), Some(value));
    }
}

#[test]
fn time_is_shown_as_minutes_and_seconds() {
    assert_eq!(clock(0), "00:00");
    assert_eq!(clock(7), "00:07");
    assert_eq!(clock(59), "00:59");
    assert_eq!(clock(60), "01:00");
    assert_eq!(clock(307), "05:07");
    assert_eq!(clock(600), "10:00");
    assert_eq!(clock(3599), "59:59");
    assert_eq!(clock(6000), "100:00");
    let info = PlayerInfo {
        audio_format_rate: None,
        audio_format_bit: None,
        audio_format_channels: None,
        random: None,
        state: None,
        time: (83, 296),
    };
    assert_eq!(info.format_time(), "01:23 / 04:56");
}

#[test]
fn labels_show_format_and_volume() {
    let mut info = PlayerInfo {
        audio_format_rate: Some(44100),
        audio_format_bit: Some(16),
        audio_format_channels: Some(2),
        random: None,
        state: None,
        time: (0, 0),
    };
    assert_eq!(audio_format(&info), "Freq: 44100 | Bit: 16 | Ch: 2");
    info.audio_format_bit = None;
    info.audio_format_channels = None;
    assert_eq!(audio_format(&info), "Freq: 44100 | Bit: 0 | Ch: 0");
    info.audio_format_rate = None;
    assert_eq!(audio_format(&info), "Freq: 0 | Bit: 0 | Ch: 0");
    let status = DacStatus { volume: 180, filter: FilterType::SharpRollOff };
    assert_eq!(volume_label(&status), "Volume: 180/255");
    assert_eq!(volume_label(&DacStatus::default()), "Volume: 0/255");
}

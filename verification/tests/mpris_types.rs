use capyshell::mpris::types::{MprisData, PlaybackStatus, PlayerCommand};

fn snapshot(status: PlaybackStatus, position_us: i64, timestamp_ms: u64, length_us: i64) -> MprisData {
    let mut data = MprisData::default();
    data.status = status;
    data.position_us = position_us;
    data.position_timestamp_ms = timestamp_ms;
    data.length_us = length_us;
    data
}

#[test]
fn status_from_known_words() {
    assert_eq!(PlaybackStatus::from_str("Playing"), PlaybackStatus::Playing);
    assert_eq!(PlaybackStatus::from_str("Paused"), PlaybackStatus::Paused);
    assert_eq!(PlaybackStatus::from_str("Stopped"), PlaybackStatus::Stopped);
}

#[test]
fn status_from_unknown_words_is_stopped() {
    assert_eq!(PlaybackStatus::from_str(""), PlaybackStatus::Stopped);
    assert_eq!(PlaybackStatus::from_str("playing"), PlaybackStatus::Stopped);
    assert_eq!(PlaybackStatus::from_str("PLAYING"), PlaybackStatus::Stopped);
    assert_eq!(PlaybackStatus::from_str("Playing "), PlaybackStatus::Stopped);
    assert_eq!(PlaybackStatus::from_str("Buffering"), PlaybackStatus::Stopped);
}

#[test]
fn status_is_playing_only_when_playing() {
    assert!(PlaybackStatus::Playing.is_playing());
    assert!(!PlaybackStatus::Paused.is_playing());
    assert!(!PlaybackStatus::Stopped.is_playing());
}

#[test]
fn status_default_is_stopped() {
    assert_eq!(PlaybackStatus::default(), PlaybackStatus::Stopped);
}

#[test]
fn snapshot_default_is_empty() {
    let data = MprisData::default();
    assert_eq!(data.title, "");
    assert_eq!(data.artist, "");
    assert_eq!(data.album, "");
    assert_eq!(data.art_url, "");
    assert_eq!(data.length_us, 0);
    assert_eq!(data.status, PlaybackStatus::Stopped);
    assert_eq!(data.track_id, None);
    assert_eq!(data.position_us, 0);
    assert_eq!(data.position_timestamp_ms, 0);
    assert_eq!(data.source_name, "");
    assert_eq!(data.source_bus_name, "");
}

#[test]
fn resting_position_is_exact_whatever_the_time() {
    let paused = snapshot(PlaybackStatus::Paused, 42_000_000, 1_000, 180_000_000);
    assert_eq!(paused.interpolated_position_at(0), 42_000_000);
    assert_eq!(paused.interpolated_position_at(1_000), 42_000_000);
    assert_eq!(paused.interpolated_position_at(999_999_999), 42_000_000);
    let stopped = snapshot(PlaybackStatus::Stopped, -5, 1_000, 10);
    assert_eq!(stopped.interpolated_position_at(5_000), -5);
    let beyond = snapshot(PlaybackStatus::Paused, 500, 0, 100);
    assert_eq!(beyond.interpolated_position_at(7), 500);
}

#[test]
fn resting_position_by_the_clock_is_exact() {
    let paused = snapshot(PlaybackStatus::Paused, 42_000_000, 1_000, 180_000_000);
    assert_eq!(paused.interpolated_position_us(), 42_000_000);
}

#[test]
fn playing_position_advances_with_time() {
    let playing = snapshot(PlaybackStatus::Playing, 10_000_000, 1_000, 180_000_000);
    assert_eq!(playing.interpolated_position_at(1_000), 10_000_000);
    assert_eq!(playing.interpolated_position_at(1_001), 10_001_000);
    assert_eq!(playing.interpolated_position_at(3_500), 12_500_000);
}

#[test]
fn playing_position_stops_at_the_length() {
    let playing = snapshot(PlaybackStatus::Playing, 10_000_000, 1_000, 12_000_000);
    assert_eq!(playing.interpolated_position_at(2_999), 11_999_000);
    assert_eq!(playing.interpolated_position_at(3_000), 12_000_000);
    assert_eq!(playing.interpolated_position_at(3_001), 12_000_000);
    assert_eq!(playing.interpolated_position_at(u64::MAX), 12_000_000);
}

#[test]
fn playing_position_is_never_negative() {
    let playing = snapshot(PlaybackStatus::Playing, -3_000, 0, 1_000_000);
    assert_eq!(playing.interpolated_position_at(0), 0);
    assert_eq!(playing.interpolated_position_at(2), 0);
    assert_eq!(playing.interpolated_position_at(3), 0);
    assert_eq!(playing.interpolated_position_at(4), 1_000);
    let no_length = snapshot(PlaybackStatus::Playing, 5, 0, -10);
    assert_eq!(no_length.interpolated_position_at(100), 0);
}

#[test]
fn playing_position_ignores_a_clock_that_went_back() {
    let playing = snapshot(PlaybackStatus::Playing, 10_000_000, 5_000, 180_000_000);
    assert_eq!(playing.interpolated_position_at(4_000), 10_000_000);
    assert_eq!(playing.interpolated_position_at(0), 10_000_000);
}

#[test]
fn playing_position_is_monotone_over_a_range_of_times() {
    let playing = snapshot(PlaybackStatus::Playing, 1_500, 100, 20_000);
    let mut last = playing.interpolated_position_at(0);
    for now in 1..200u64 {
        let here = playing.interpolated_position_at(now);
        assert!(here >= last);
        assert!(here >= 0 && here <= 20_000);
        last = here;
    }
}

#[test]
fn playing_position_survives_extreme_values() {
    let far = snapshot(PlaybackStatus::Playing, i64::MAX, 0, i64::MAX);
    assert_eq!(far.interpolated_position_at(u64::MAX), i64::MAX);
    let low = snapshot(PlaybackStatus::Playing, i64::MIN, 0, i64::MAX);
    assert_eq!(low.interpolated_position_at(0), 0);
}

#[test]
fn playing_position_by_the_clock_is_in_range() {
    let playing = snapshot(PlaybackStatus::Playing, 1_000, 0, 5_000);
    assert_eq!(playing.interpolated_position_us(), 5_000);
    let future = snapshot(PlaybackStatus::Playing, 1_000, u64::MAX, 5_000);
    assert_eq!(future.interpolated_position_us(), 1_000);
}

#[test]
fn commands_can_be_cloned() {
    let command = PlayerCommand::SwitchSource("vlc".to_string());
    match command.clone() {
        PlayerCommand::SwitchSource(name) => assert_eq!(name, "vlc"),
        _ => panic!("the clone is another command"),
    }
    assert!(matches!(PlayerCommand::Seek(-5).clone(), PlayerCommand::Seek(-5)));
}

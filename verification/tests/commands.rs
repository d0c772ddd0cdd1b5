use waybar_now_playing::ctl::PlayerCtl;
use waybar_now_playing::status::{LoopStatus, ShuffleStatus};

#[test]
fn unconditional_commands() {
    assert_eq!(PlayerCtl::play(), "playerctl play");
    assert_eq!(PlayerCtl::pause(), "playerctl pause");
    assert_eq!(PlayerCtl::stop(), "playerctl stop");
}

#[test]
fn targeted_commands_carry_the_player_flag() {
    let target = Some("spotify".to_string());
    assert_eq!(PlayerCtl::play_pause(&target), "playerctl -p spotify play-pause");
    assert_eq!(PlayerCtl::next(&target), "playerctl -p spotify next");
    assert_eq!(PlayerCtl::play_pause(&None), "playerctl play-pause");
    assert_eq!(PlayerCtl::next(&None), "playerctl next");
}

#[test]
fn previous_issues_the_next_command() {
    assert_eq!(
        PlayerCtl::previous(&Some("spotify".to_string())),
        "playerctl -p spotify next"
    );
    assert_eq!(PlayerCtl::previous(&None), "playerctl next");
}

#[test]
fn queries() {
    assert_eq!(PlayerCtl::status(), "playerctl status");
    assert_eq!(PlayerCtl::status_of("mpv"), "playerctl -p mpv status");
    assert_eq!(PlayerCtl::list_all(), "playerctl -l");
    assert_eq!(PlayerCtl::loop_get(), "playerctl loop");
    assert_eq!(PlayerCtl::shuffle_get(), "playerctl shuffle");
}

#[test]
fn metadata_issues_three_field_queries() {
    let (title, artist, album) = PlayerCtl::metadata(&None);
    assert_eq!(title, "playerctl metadata title");
    assert_eq!(artist, "playerctl metadata artist");
    assert_eq!(album, "playerctl metadata album");

    let (title, artist, album) = PlayerCtl::metadata(&Some("mpv".to_string()));
    assert_eq!(title, "playerctl -p mpv metadata title");
    assert_eq!(artist, "playerctl -p mpv metadata artist");
    assert_eq!(album, "playerctl -p mpv metadata album");
}

#[test]
fn mode_setters_use_canonical_names() {
    assert_eq!(PlayerCtl::loop_set(LoopStatus::NoLoop), "playerctl loop None");
    assert_eq!(PlayerCtl::loop_set(LoopStatus::Track), "playerctl loop Track");
    assert_eq!(
        PlayerCtl::loop_set(LoopStatus::Playlist),
        "playerctl loop Playlist"
    );
    assert_eq!(PlayerCtl::shuffle_set(ShuffleStatus::On), "playerctl shuffle On");
    assert_eq!(PlayerCtl::shuffle_set(ShuffleStatus::Off), "playerctl shuffle Off");
    assert_eq!(
        PlayerCtl::shuffle_set(ShuffleStatus::Toggle),
        "playerctl shuffle Toggle"
    );
}

#[test]
fn open_takes_the_uri_verbatim() {
    assert_eq!(
        PlayerCtl::open("https://example.org/a.ogg"),
        "playerctl open https://example.org/a.ogg"
    );
}

//! The three end-to-end scenarios, walked at the library level: the binary
//! around the library only runs the computed command lines, prints the
//! computed line and writes the computed scratch content.

use waybar_now_playing::ctl::{parse_player_list, PlayerCtl};
use waybar_now_playing::decide::{active_player, handle_args, has_active_player, resolve_target};
use waybar_now_playing::render::render_line;
use waybar_now_playing::status::{PlayerStatus, TrackMetadata};

#[test]
fn no_playing_player_with_remembered_name_forwards_and_rewrites() {
    // The controller reports no player; the scratch file holds "spotify";
    // the CLI argument is "next".
    let status = PlayerStatus::parse("No players found\n");
    assert!(!has_active_player(status));
    // The run prints a blank line and renders no JSON; the remembered player
    // gets the forwarded command and the scratch file is written again.
    let remembered = Some("spotify".to_string());
    let d = handle_args(&remembered, vec!["widget".to_string(), "next".to_string()]);
    assert_eq!(d.forward, Some("playerctl -p spotify next".to_string()));
    assert_eq!(d.persist, Some("spotify".to_string()));
}

#[test]
fn playing_player_renders_the_widget_line() {
    // The controller reports "spotify" in Playing state with metadata
    // title = "Song" and artist = "Artist".
    let status = PlayerStatus::parse("Playing\n");
    assert!(has_active_player(status));

    let players = parse_player_list("spotify\n");
    assert_eq!(players, vec!["spotify".to_string()]);
    let statuses = vec![PlayerStatus::parse("Playing\n")];
    let active = active_player(&players, &statuses);
    assert_eq!(active, Some("spotify".to_string()));

    let (title_query, artist_query, album_query) = PlayerCtl::metadata(&active);
    assert_eq!(title_query, "playerctl -p spotify metadata title");
    assert_eq!(artist_query, "playerctl -p spotify metadata artist");
    assert_eq!(album_query, "playerctl -p spotify metadata album");

    let metadata = TrackMetadata::from_raw("Song\n", "Artist\n", "\n");
    let line = render_line(&metadata);
    let output = format!("{}\n", line);
    assert_eq!(
        output,
        "{\"text\":\"Song - Artist\",\"class\":\"custom-player\",\"alt\":\"playing\"}\n"
    );
}

#[test]
fn stopped_controller_without_scratch_file_stays_silent() {
    // The controller reports Stopped and no scratch file exists: the output
    // is a single blank line and nothing is forwarded.
    let status = PlayerStatus::parse("Stopped\n");
    assert!(!has_active_player(status));
    let target = resolve_target(None, None);
    assert_eq!(target, None);
    let d = handle_args(&target, vec!["widget".to_string()]);
    assert_eq!(d.forward, None);
    assert_eq!(d.persist, None);
}

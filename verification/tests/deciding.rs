use waybar_now_playing::decide::{
    active_player, handle_args, has_active_player, resolve_target,
};
use waybar_now_playing::status::PlayerStatus;

fn args(words: &[&str]) -> Vec<String> {
    words.iter().map(|w| w.to_string()).collect()
}

#[test]
fn only_playing_and_paused_keep_the_widget() {
    assert!(has_active_player(PlayerStatus::Playing));
    assert!(has_active_player(PlayerStatus::Paused));
    assert!(!has_active_player(PlayerStatus::Stopped));
    assert!(!has_active_player(PlayerStatus::NoPlayer));
}

#[test]
fn scan_picks_the_first_playing_player() {
    let players = args(&["firefox", "spotify", "mpv"]);
    let statuses = vec![
        PlayerStatus::Paused,
        PlayerStatus::Playing,
        PlayerStatus::Playing,
    ];
    assert_eq!(active_player(&players, &statuses), Some("spotify".to_string()));
}

#[test]
fn scan_without_a_playing_player_finds_none() {
    let players = args(&["firefox", "spotify"]);
    let statuses = vec![PlayerStatus::Paused, PlayerStatus::Stopped];
    assert_eq!(active_player(&players, &statuses), None);
    assert_eq!(active_player(&vec![], &vec![]), None);
}

#[test]
fn resolved_player_wins_over_remembered_one() {
    assert_eq!(
        resolve_target(Some("spotify".to_string()), Some("mpv".to_string())),
        Some("spotify".to_string())
    );
    assert_eq!(
        resolve_target(None, Some("mpv".to_string())),
        Some("mpv".to_string())
    );
    assert_eq!(resolve_target(None, None), None);
}

#[test]
fn remembered_player_gets_the_forwarded_command() {
    // A run that found no playing player but remembers "spotify" and was
    // asked for "next": the command is scoped to spotify and the scratch
    // content is written again.
    let d = handle_args(&Some("spotify".to_string()), args(&["widget", "next"]));
    assert_eq!(d.forward, Some("playerctl -p spotify next".to_string()));
    assert_eq!(d.persist, Some("spotify".to_string()));
}

#[test]
fn play_pause_and_previous_are_forwarded_scoped() {
    let d = handle_args(&Some("mpv".to_string()), args(&["widget", "play-pause"]));
    assert_eq!(d.forward, Some("playerctl -p mpv play-pause".to_string()));
    assert_eq!(d.persist, Some("mpv".to_string()));

    // The "previous" word forwards the controller's `next` command.
    let d = handle_args(&Some("mpv".to_string()), args(&["widget", "previous"]));
    assert_eq!(d.forward, Some("playerctl -p mpv next".to_string()));
}

#[test]
fn no_target_means_nothing_is_forwarded() {
    let d = handle_args(&None, args(&["widget", "next"]));
    assert_eq!(d.forward, None);
    assert_eq!(d.persist, None);
}

#[test]
fn absent_or_unrecognized_arguments_are_ignored() {
    let d = handle_args(&Some("spotify".to_string()), args(&["widget"]));
    assert_eq!(d.forward, None);
    assert_eq!(d.persist, None);

    let d = handle_args(&Some("spotify".to_string()), args(&["widget", "stop"]));
    assert_eq!(d.forward, None);
    assert_eq!(d.persist, None);

    let d = handle_args(
        &Some("spotify".to_string()),
        args(&["widget", "next", "extra"]),
    );
    assert_eq!(d.forward, None);
    assert_eq!(d.persist, None);
}

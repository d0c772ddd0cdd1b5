//! The control facade: one operation per user-facing action, each computing
//! the exact command line handed to the `playerctl` controller.
//!
//! The library never spawns the controller itself; the surrounding binary
//! runs the returned command line and feeds any reply back through the
//! parsers (`PlayerStatus::parse`, `LoopStatus::parse`, `ShuffleStatus::parse`,
//! `TrackMetadata::from_raw`, `parse_player_list`).

use vstd::prelude::*;
use vstd::string::{StrSliceExecFns, StringExecFns};
use crate::status::{loop_status_name, shuffle_status_name, LoopStatus, ShuffleStatus};
use crate::strutil::{trim_spaces, trimmed};

verus! {

/// The views of an optional player name.
pub open spec fn opt_seq(p: &Option<String>) -> Option<Seq<char>> {
    match p {
        Some(s) => Some(s@),
        None => None,
    }
}

/// The command line for `action`, scoped to `player` via the controller's
/// player-selection flag when a player is given.
pub open spec fn scoped_command(player: Option<Seq<char>>, action: Seq<char>) -> Seq<char> {
    match player {
        Some(p) => "playerctl -p "@ + p + " "@ + action,
        None => "playerctl "@ + action,
    }
}

fn scoped(player: &Option<String>, action: &str) -> (r: String)
    ensures
        r@ == scoped_command(opt_seq(player), action@),
{
    match player {
        Some(p) => String::from_str("playerctl -p ").concat(p.as_str()).concat(" ").concat(
            action,
        ),
        None => String::from_str("playerctl ").concat(action),
    }
}

/// The playerctl facade.
///
/// Each method computes the command line for one controller operation.
pub struct PlayerCtl;

impl PlayerCtl {
    /// Play media.
    pub fn play() -> (r: String)
        ensures
            r@ == "playerctl play"@,
    {
        String::from_str("playerctl play")
    }

    /// Pause media.
    pub fn pause() -> (r: String)
        ensures
            r@ == "playerctl pause"@,
    {
        String::from_str("playerctl pause")
    }

    /// Play / pause media, scoped to the given player when one is given.
    pub fn play_pause(active_player: &Option<String>) -> (r: String)
        ensures
            r@ == scoped_command(opt_seq(active_player), "play-pause"@),
    {
        scoped(active_player, "play-pause")
    }

    /// Stop media.
    pub fn stop() -> (r: String)
        ensures
            r@ == "playerctl stop"@,
    {
        String::from_str("playerctl stop")
    }

    /// Skip to the next track, scoped to the given player when one is given.
    pub fn next(active_player: &Option<String>) -> (r: String)
        ensures
            r@ == scoped_command(opt_seq(active_player), "next"@),
    {
        scoped(active_player, "next")
    }

    /// Skip to the previous track.
    ///
    /// Note: this operation issues the controller's `next` command regardless
    /// of targeting. The behaviour is kept as the widget's users observe it
    /// rather than silently corrected.
    pub fn previous(active_player: &Option<String>) -> (r: String)
        ensures
            r@ == scoped_command(opt_seq(active_player), "next"@),
    {
        scoped(active_player, "next")
    }

    /// Query the default player's status. The reply is parsed by
    /// `PlayerStatus::parse`.
    pub fn status() -> (r: String)
        ensures
            r@ == "playerctl status"@,
    {
        String::from_str("playerctl status")
    }

    /// The three metadata queries (title, artist, album), scoped to the given
    /// player when one is given. The replies are assembled by
    /// `TrackMetadata::from_raw`.
    pub fn metadata(active_player: &Option<String>) -> (r: (String, String, String))
        ensures
            r.0@ == scoped_command(opt_seq(active_player), "metadata title"@),
            r.1@ == scoped_command(opt_seq(active_player), "metadata artist"@),
            r.2@ == scoped_command(opt_seq(active_player), "metadata album"@),
    {
        (
            scoped(active_player, "metadata title"),
            scoped(active_player, "metadata artist"),
            scoped(active_player, "metadata album"),
        )
    }

    /// Open the given uri in the player.
    ///
    /// The uri can be a file path or web url.
    pub fn open(uri: &str) -> (r: String)
        ensures
            r@ == "playerctl open "@ + uri@,
    {
        String::from_str("playerctl open ").concat(uri)
    }

    /// Query the current loop mode. The reply is parsed by
    /// `LoopStatus::parse`.
    pub fn loop_get() -> (r: String)
        ensures
            r@ == "playerctl loop"@,
    {
        String::from_str("playerctl loop")
    }

    /// Set the loop mode, by its canonical name.
    pub fn loop_set(status: LoopStatus) -> (r: String)
        ensures
            r@ == "playerctl loop "@ + loop_status_name(status),
    {
        let n = status.name();
        String::from_str("playerctl loop ").concat(n.as_str())
    }

    /// Query the current shuffle mode. The reply is parsed by
    /// `ShuffleStatus::parse`.
    pub fn shuffle_get() -> (r: String)
        ensures
            r@ == "playerctl shuffle"@,
    {
        String::from_str("playerctl shuffle")
    }

    /// Set the shuffle mode, by its canonical name.
    pub fn shuffle_set(status: ShuffleStatus) -> (r: String)
        ensures
            r@ == "playerctl shuffle "@ + shuffle_status_name(status),
    {
        let n = status.name();
        String::from_str("playerctl shuffle ").concat(n.as_str())
    }

    /// Query the names of every registered player. The reply is parsed by
    /// `parse_player_list`.
    pub fn list_all() -> (r: String)
        ensures
            r@ == "playerctl -l"@,
    {
        String::from_str("playerctl -l")
    }

    /// Query the status of the given player. The reply is parsed by
    /// `PlayerStatus::parse`.
    pub fn status_of(player: &str) -> (r: String)
        ensures
            r@ == "playerctl -p "@ + player@ + " status"@,
    {
        String::from_str("playerctl -p ").concat(player).concat(" status")
    }
}

/// The views of a sequence of strings.
pub open spec fn seq_views(v: Seq<String>) -> Seq<Seq<char>> {
    v.map_values(|s: String| s@)
}

/// The parts joined again with a line feed between each two: the inverse of
/// splitting on line feeds.
pub open spec fn joined_lines(parts: Seq<Seq<char>>) -> Seq<char>
    decreases parts.len(),
{
    if parts.len() == 0 {
        Seq::empty()
    } else if parts.len() == 1 {
        parts[0]
    } else {
        joined_lines(parts.drop_last()) + seq!['\n'] + parts.last()
    }
}

proof fn lemma_joined_snoc(parts: Seq<Seq<char>>, a: Seq<char>)
    requires
        parts.len() >= 1,
    ensures
        joined_lines(parts.push(a)) == joined_lines(parts) + seq!['\n'] + a,
{
    assert(parts.push(a).drop_last() =~= parts);
    assert(parts.push(a).last() == a);
}

/// Split a list reply into the registered player names: the trimmed reply,
/// split on line feeds, in order. An empty reply yields one empty name; the
/// result is never empty.
pub fn parse_player_list(raw: &str) -> (r: Vec<String>)
    ensures
        r@.len() >= 1,
        joined_lines(seq_views(r@)) == trimmed(raw@),
        forall|k: int| 0 <= k < r@.len() ==> !seq_views(r@)[k].contains('\n'),
{
    let t = trim_spaces(raw);
    let tlen = t.unicode_len();
    let mut out: Vec<String> = Vec::new();
    let mut start: usize = 0;
    let mut i: usize = 0;
    while i < tlen
        invariant
            tlen == t@.len(),
            t@ == trimmed(raw@),
            start <= i <= tlen,
            joined_lines(seq_views(out@).push(t@.subrange(start as int, i as int))) == t@.take(
                i as int,
            ),
            forall|k: int| 0 <= k < out@.len() ==> !seq_views(out@)[k].contains('\n'),
            forall|k: int| start <= k < i ==> t@[k] != '\n',
        decreases tlen - i,
    {
        let ghost x = seq_views(out@);
        let ghost a = t@.subrange(start as int, i as int);
        let c = t.get_char(i);
        if c == '\n' {
            let seg = t.substring_char(start, i);
            out.push(String::from_str(seg));
            proof {
                assert(seq_views(out@) =~= x.push(a));
                lemma_joined_snoc(x.push(a), Seq::empty());
                assert(seq_views(out@).push(t@.subrange(i + 1, i + 1)) =~~= x.push(a).push(
                    Seq::empty(),
                ));
                assert(joined_lines(x.push(a)) + seq!['\n'] + Seq::<char>::empty() =~= t@.take(
                    i as int,
                ).push('\n'));
                assert(t@.take(i + 1) =~= t@.take(i as int).push(t@[i as int]));
            }
            start = i + 1;
        } else {
            proof {
                if x.len() == 0 {
                    assert(joined_lines(x.push(a)) == a);
                    assert(joined_lines(x.push(t@.subrange(start as int, i + 1))) == t@.subrange(
                        start as int,
                        i + 1,
                    ));
                } else {
                    lemma_joined_snoc(x, a);
                    lemma_joined_snoc(x, t@.subrange(start as int, i + 1));
                }
                assert(t@.subrange(start as int, i + 1) =~= a.push(t@[i as int]));
                assert(joined_lines(x.push(t@.subrange(start as int, i + 1))) =~= joined_lines(
                    x.push(a),
                ).push(t@[i as int]));
                assert(t@.take(i + 1) =~= t@.take(i as int).push(t@[i as int]));
            }
        }
        i = i + 1;
    }
    let ghost x = seq_views(out@);
    let ghost a = t@.subrange(start as int, tlen as int);
    let seg = t.substring_char(start, tlen);
    out.push(String::from_str(seg));
    proof {
        assert(seq_views(out@) =~= x.push(a));
        assert(t@.take(tlen as int) =~= t@);
    }
    out
}

} // verus!

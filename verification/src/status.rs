//! Typed models of the controller's vocabularies: player status, loop mode,
//! shuffle mode and track metadata, each with its reply parser.
//!
//! Player status parsing is deliberately lenient (anything unrecognized is
//! `NoPlayer`, so a status query never fails), while loop and shuffle parsing
//! is strict (anything unrecognized is an error). The asymmetry is part of the
//! design: "no player" and "unexpected text" are treated identically for
//! status, but a garbled loop or shuffle reply must not be acted on.

use vstd::prelude::*;
use vstd::string::StringExecFns;
use crate::strutil::{str_eq, trim_spaces, trimmed};

verus! {

/// The current state of the player.
#[derive(Debug, Clone, Copy, PartialEq, Eq, Structural)]
pub enum PlayerStatus {
    /// Media is currently playing.
    Playing,
    /// Media is currently paused.
    Paused,
    /// Media is currently stopped.
    Stopped,
    /// No player is registered, or the controller's reply was not recognized.
    NoPlayer,
}

/// The status a controller reply stands for: the three exact words map to
/// their state, and everything else (including "No players found", garbage,
/// or an empty reply) maps to `NoPlayer`.
pub open spec fn player_status_of(s: Seq<char>) -> PlayerStatus {
    if s == "Playing"@ {
        PlayerStatus::Playing
    } else if s == "Paused"@ {
        PlayerStatus::Paused
    } else if s == "Stopped"@ {
        PlayerStatus::Stopped
    } else {
        PlayerStatus::NoPlayer
    }
}

impl PlayerStatus {
    /// Parse a status reply. The reply is trimmed first; an unrecognized
    /// reply yields `NoPlayer` rather than an error.
    pub fn parse(s: &str) -> (r: PlayerStatus)
        ensures
            r == player_status_of(trimmed(s@)),
    {
        let t = trim_spaces(s);
        if str_eq(t, "Playing") {
            PlayerStatus::Playing
        } else if str_eq(t, "Paused") {
            PlayerStatus::Paused
        } else if str_eq(t, "Stopped") {
            PlayerStatus::Stopped
        } else {
            PlayerStatus::NoPlayer
        }
    }
}

/// The player's looping state.
#[derive(Debug, Clone, Copy, PartialEq, Eq, Structural)]
pub enum LoopStatus {
    /// Media is not looping; its canonical name in the controller's
    /// vocabulary is "None".
    NoLoop,
    /// The current track will loop.
    Track,
    /// All tracks will loop.
    Playlist,
}

/// The loop mode a controller reply stands for: exactly the three canonical
/// names are accepted; anything else is an error.
pub open spec fn loop_status_of(s: Seq<char>) -> Result<LoopStatus, ()> {
    if s == "None"@ {
        Ok(LoopStatus::NoLoop)
    } else if s == "Track"@ {
        Ok(LoopStatus::Track)
    } else if s == "Playlist"@ {
        Ok(LoopStatus::Playlist)
    } else {
        Err(())
    }
}

/// The canonical textual name of a loop mode, as the controller both prints
/// and accepts it.
pub open spec fn loop_status_name(st: LoopStatus) -> Seq<char> {
    match st {
        LoopStatus::NoLoop => "None"@,
        LoopStatus::Track => "Track"@,
        LoopStatus::Playlist => "Playlist"@,
    }
}

impl LoopStatus {
    /// Parse a loop-mode reply. The reply is trimmed first; an unrecognized
    /// reply is an error.
    pub fn parse(s: &str) -> (r: Result<LoopStatus, ()>)
        ensures
            r == loop_status_of(trimmed(s@)),
    {
        let t = trim_spaces(s);
        if str_eq(t, "None") {
            Ok(LoopStatus::NoLoop)
        } else if str_eq(t, "Track") {
            Ok(LoopStatus::Track)
        } else if str_eq(t, "Playlist") {
            Ok(LoopStatus::Playlist)
        } else {
            Err(())
        }
    }

    /// The canonical textual name of this loop mode.
    pub fn name(&self) -> (r: String)
        ensures
            r@ == loop_status_name(*self),
    {
        match self {
            LoopStatus::NoLoop => String::from_str("None"),
            LoopStatus::Track => String::from_str("Track"),
            LoopStatus::Playlist => String::from_str("Playlist"),
        }
    }
}

/// Law: parsing a loop mode's canonical name (even through the trimming a
/// reply goes through) yields that mode back, and any string that parses
/// successfully is the parsed mode's canonical name.
pub proof fn lemma_loop_status_round_trip(st: LoopStatus, s: Seq<char>)
    ensures
        loop_status_of(trimmed(loop_status_name(st))) == Ok::<LoopStatus, ()>(st),
        loop_status_of(s) == Ok::<LoopStatus, ()>(st) ==> s == loop_status_name(st),
{
    reveal_strlit("None");
    reveal_strlit("Track");
    reveal_strlit("Playlist");
}

/// The player's shuffle state.
#[derive(Debug, Clone, Copy, PartialEq, Eq, Structural)]
pub enum ShuffleStatus {
    /// Media will be shuffled.
    On,
    /// Media will not be shuffled.
    Off,
    /// The shuffle status will be toggled.
    Toggle,
}

/// The shuffle mode a controller reply stands for: exactly the three
/// canonical names are accepted; anything else is an error.
pub open spec fn shuffle_status_of(s: Seq<char>) -> Result<ShuffleStatus, ()> {
    if s == "On"@ {
        Ok(ShuffleStatus::On)
    } else if s == "Off"@ {
        Ok(ShuffleStatus::Off)
    } else if s == "Toggle"@ {
        Ok(ShuffleStatus::Toggle)
    } else {
        Err(())
    }
}

/// The canonical textual name of a shuffle mode.
pub open spec fn shuffle_status_name(st: ShuffleStatus) -> Seq<char> {
    match st {
        ShuffleStatus::On => "On"@,
        ShuffleStatus::Off => "Off"@,
        ShuffleStatus::Toggle => "Toggle"@,
    }
}

impl ShuffleStatus {
    /// Parse a shuffle-mode reply. The reply is trimmed first; an
    /// unrecognized reply is an error.
    pub fn parse(s: &str) -> (r: Result<ShuffleStatus, ()>)
        ensures
            r == shuffle_status_of(trimmed(s@)),
    {
        let t = trim_spaces(s);
        if str_eq(t, "On") {
            Ok(ShuffleStatus::On)
        } else if str_eq(t, "Off") {
            Ok(ShuffleStatus::Off)
        } else if str_eq(t, "Toggle") {
            Ok(ShuffleStatus::Toggle)
        } else {
            Err(())
        }
    }

    /// The canonical textual name of this shuffle mode.
    pub fn name(&self) -> (r: String)
        ensures
            r@ == shuffle_status_name(*self),
    {
        match self {
            ShuffleStatus::On => String::from_str("On"),
            ShuffleStatus::Off => String::from_str("Off"),
            ShuffleStatus::Toggle => String::from_str("Toggle"),
        }
    }
}

/// Law: parsing a shuffle mode's canonical name (even through the trimming a
/// reply goes through) yields that mode back, and any string that parses
/// successfully is the parsed mode's canonical name.
pub proof fn lemma_shuffle_status_round_trip(st: ShuffleStatus, s: Seq<char>)
    ensures
        shuffle_status_of(trimmed(shuffle_status_name(st))) == Ok::<ShuffleStatus, ()>(st),
        shuffle_status_of(s) == Ok::<ShuffleStatus, ()>(st) ==> s == shuffle_status_name(st),
{
    reveal_strlit("On");
    reveal_strlit("Off");
    reveal_strlit("Toggle");
}

/// The currently playing track's metadata.
///
/// If any of the metadata is not available, that field is an empty string.
#[derive(Debug)]
pub struct TrackMetadata {
    /// The track's artist.
    pub artist: String,
    /// The track's title.
    pub title: String,
    /// The track's album.
    pub album: String,
}

impl TrackMetadata {
    /// Assemble a metadata record from the controller's replies to the three
    /// field queries. Each field is trimmed independently; a field the
    /// controller did not answer stays the empty string.
    pub fn from_raw(title: &str, artist: &str, album: &str) -> (r: TrackMetadata)
        ensures
            r.title@ == trimmed(title@),
            r.artist@ == trimmed(artist@),
            r.album@ == trimmed(album@),
    {
        TrackMetadata {
            artist: String::from_str(trim_spaces(artist)),
            title: String::from_str(trim_spaces(title)),
            album: String::from_str(trim_spaces(album)),
        }
    }
}

} // verus!

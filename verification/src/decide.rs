//! The entry-point decision logic: which state the opening status query puts
//! a run into, which player a forwarded command targets, and what is
//! forwarded and persisted. The surrounding binary only queries, prints,
//! runs the decided command and overwrites the scratch file.

use vstd::prelude::*;
use crate::ctl::{scoped_command, PlayerCtl};
use crate::status::PlayerStatus;
use crate::strutil::str_eq;

verus! {

/// What a run does once its output line is printed: the command line to
/// forward to the controller, if any, and the player name to overwrite the
/// scratch file with, if any.
pub struct Decision {
    /// The command line to forward, if any.
    pub forward: Option<String>,
    /// The player name to persist, if any.
    pub persist: Option<String>,
}

/// Whether the opening status query puts a run into the state with an active
/// player, in which a widget line is rendered, rather than the vanish state,
/// in which a blank line hides the widget.
pub fn has_active_player(status: PlayerStatus) -> (b: bool)
    ensures
        b == (status is Playing || status is Paused),
{
    match status {
        PlayerStatus::Playing => true,
        PlayerStatus::Paused => true,
        PlayerStatus::Stopped => false,
        PlayerStatus::NoPlayer => false,
    }
}

/// The first player of the scan that is currently playing, if any. `players`
/// holds the registered names in listing order and `statuses` the status each
/// one reported.
pub fn active_player(players: &Vec<String>, statuses: &Vec<PlayerStatus>) -> (r: Option<String>)
    requires
        players@.len() == statuses@.len(),
    ensures
        match r {
            Some(p) => exists|i: int|
                0 <= i < statuses@.len() && statuses@[i] is Playing && p@ == players@[i]@ && (
                forall|j: int| 0 <= j < i ==> !(statuses@[j] is Playing)),
            None => forall|i: int| 0 <= i < statuses@.len() ==> !(statuses@[i] is Playing),
        },
{
    let n = players.len();
    let mut i: usize = 0;
    while i < n
        invariant
            players@.len() == statuses@.len(),
            n == players@.len(),
            i <= n,
            forall|j: int| 0 <= j < i ==> !(statuses@[j] is Playing),
        decreases n - i,
    {
        if statuses[i] == PlayerStatus::Playing {
            let p = players[i].clone();
            proof {
                let ghost ii = i as int;
                assert(0 <= ii < statuses@.len() && statuses@[ii] is Playing && p@
                    == players@[ii]@ && (forall|j: int| 0 <= j < ii ==> !(statuses@[j] is Playing)));
            }
            return Some(p);
        }
        i = i + 1;
    }
    None
}

/// The target a forwarded command is scoped to: the player the scan resolved
/// when there is one, else the player remembered in the scratch file.
pub fn resolve_target(active: Option<String>, remembered: Option<String>) -> (r: Option<String>)
    ensures
        active is Some ==> r == active,
        active is None ==> r == remembered,
{
    match active {
        Some(p) => Some(p),
        None => remembered,
    }
}

/// The argument words that ask for a command to be forwarded.
pub open spec fn is_forward_word(s: Seq<char>) -> bool {
    s == "play-pause"@ || s == "next"@ || s == "previous"@
}

/// Whether the argument list asks for a forward: exactly one argument beyond
/// the program name, and that argument one of the three forward words.
pub open spec fn forward_requested(args: Seq<String>) -> bool {
    args.len() == 2 && is_forward_word(args[1]@)
}

/// The controller action a forward word maps to. The "previous" word maps to
/// the `next` command; see `PlayerCtl::previous`.
pub open spec fn forward_action(w: Seq<char>) -> Seq<char> {
    if w == "play-pause"@ {
        "play-pause"@
    } else {
        "next"@
    }
}

/// Decide what a run forwards once its output line is printed: with a target
/// player and a recognized argument, the matching command is forwarded scoped
/// to that player, and the target's name is persisted to the scratch file.
/// Without a target, or with an absent or unrecognized argument, nothing is
/// forwarded and nothing persisted.
pub fn handle_args(active_player: &Option<String>, args: Vec<String>) -> (d: Decision)
    ensures
        d.forward is Some <==> active_player is Some && forward_requested(args@),
        d.persist is Some <==> active_player is Some && forward_requested(args@),
        active_player is Some && forward_requested(args@) ==> d.forward.unwrap()@
            == scoped_command(Some(active_player.unwrap()@), forward_action(args@[1]@))
            && d.persist.unwrap()@ == active_player.unwrap()@,
{
    if let Some(t) = active_player {
        if args.len() == 2 {
            let arg = &args[1];
            let tgt: Option<String> = Some(t.clone());
            if str_eq(arg.as_str(), "play-pause") {
                Decision { forward: Some(PlayerCtl::play_pause(&tgt)), persist: Some(t.clone()) }
            } else if str_eq(arg.as_str(), "next") {
                Decision { forward: Some(PlayerCtl::next(&tgt)), persist: Some(t.clone()) }
            } else if str_eq(arg.as_str(), "previous") {
                Decision { forward: Some(PlayerCtl::previous(&tgt)), persist: Some(t.clone()) }
            } else {
                Decision { forward: None, persist: None }
            }
        } else {
            Decision { forward: None, persist: None }
        }
    } else {
        Decision { forward: None, persist: None }
    }
}

} // verus!

//! The zero-argument playback commands: each builds a method call addressed
//! to the player's object path and control interface, with no payload.

use vstd::prelude::*;
use vstd::string::StrSliceExecFns;

use crate::player::Player;
use crate::proto::object_path;
use crate::proto::player_interface;
use crate::proto::spec_control_call;
use crate::proto::MethodCall;
use crate::proto::PropValue;
use crate::proto::PLAYER_CALL_TIMEOUT_MS;

verus! {

/// Addresses one zero-argument command to the player.
fn build_control(player: &Player, member: &str) -> (r: MethodCall)
    ensures
        r@ == spec_control_call(player@, member@),
{
    let args: Vec<PropValue> = Vec::new();
    let r = MethodCall {
        destination: player.destination(),
        path: object_path().to_owned(),
        interface: player_interface().to_owned(),
        member: member.to_owned(),
        args: args,
        timeout_ms: PLAYER_CALL_TIMEOUT_MS,
    };
    proof {
        assert(r@ =~~= spec_control_call(player@, member@));
    }
    r
}

/// Builds the call that skips to the next track.
pub fn next(player: &Player) -> (r: MethodCall)
    ensures
        r@ == spec_control_call(player@, "Next"@),
{
    build_control(player, "Next")
}

/// Builds the call that skips to the previous track.
pub fn previous(player: &Player) -> (r: MethodCall)
    ensures
        r@ == spec_control_call(player@, "Previous"@),
{
    build_control(player, "Previous")
}

/// Builds the call that pauses the current track.
pub fn pause(player: &Player) -> (r: MethodCall)
    ensures
        r@ == spec_control_call(player@, "Pause"@),
{
    build_control(player, "Pause")
}

/// Builds the call that starts or resumes the current track.
pub fn play(player: &Player) -> (r: MethodCall)
    ensures
        r@ == spec_control_call(player@, "Play"@),
{
    build_control(player, "Play")
}

/// Builds the call that toggles between playing and paused.
pub fn play_pause(player: &Player) -> (r: MethodCall)
    ensures
        r@ == spec_control_call(player@, "PlayPause"@),
{
    build_control(player, "PlayPause")
}

/// Builds the call that stops playback.
pub fn stop(player: &Player) -> (r: MethodCall)
    ensures
        r@ == spec_control_call(player@, "Stop"@),
{
    build_control(player, "Stop")
}

} // verus!

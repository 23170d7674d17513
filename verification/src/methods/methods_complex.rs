//! The operations that carry a payload: property reads and writes, the two
//! seek forms, the two-step position set, and the URI open.

use vstd::prelude::*;
use vstd::string::StrSliceExecFns;

use crate::error::MprisError;
use crate::error::MprisErrorView;
use crate::metadata::Metadata;
use crate::player::Player;
use crate::proto::object_path;
use crate::proto::player_interface;
use crate::proto::spec_open_uri_call;
use crate::proto::spec_prop_get;
use crate::proto::spec_prop_set;
use crate::proto::spec_seek_call;
use crate::proto::spec_seek_reverse_call;
use crate::proto::spec_set_position_call;
use crate::proto::CallView;
use crate::proto::MethodCall;
use crate::proto::PropGet;
use crate::proto::PropSet;
use crate::proto::PropValue;
use crate::proto::PropValueView;
use crate::proto::PLAYER_CALL_TIMEOUT_MS;

verus! {

/// Builds the read of the full metadata property. The resulting snapshot
/// is what the track-identifier fetch of a position set works from.
pub fn get_metadata(player: &Player) -> (r: PropGet)
    ensures
        r@ == spec_prop_get(player@, "Metadata"@),
{
    get_property(player, "Metadata")
}

/// Builds the read of one player property. Whether the remote value can be
/// represented at all is decided where the reply is decoded, not here.
pub fn get_property(player: &Player, property: &str) -> (r: PropGet)
    ensures
        r@ == spec_prop_get(player@, property@),
{
    let r = PropGet {
        destination: player.destination(),
        path: object_path().to_owned(),
        interface: player_interface().to_owned(),
        property: property.to_owned(),
        timeout_ms: PLAYER_CALL_TIMEOUT_MS,
    };
    proof {
        assert(r@ =~~= spec_prop_get(player@, property@));
    }
    r
}

/// Builds the write of one player property.
pub fn set_property(player: &Player, property: &str, value: PropValue) -> (r: PropSet)
    ensures
        r@ == spec_prop_set(player@, property@, value@),
{
    let ghost v = value@;
    let r = PropSet {
        destination: player.destination(),
        path: object_path().to_owned(),
        interface: player_interface().to_owned(),
        property: property.to_owned(),
        value: value,
        timeout_ms: PLAYER_CALL_TIMEOUT_MS,
    };
    proof {
        assert(r@ =~~= spec_prop_set(player@, property@, v));
    }
    r
}

/// Builds the relative-seek call for a signed microsecond offset.
pub fn seek(player: &Player, offset_micros: i64) -> (r: MethodCall)
    ensures
        r@ == spec_seek_call(player@, offset_micros as int),
{
    let mut args: Vec<PropValue> = Vec::new();
    args.push(PropValue::Int64(offset_micros));
    let r = MethodCall {
        destination: player.destination(),
        path: object_path().to_owned(),
        interface: player_interface().to_owned(),
        member: "Seek".to_owned(),
        args: args,
        timeout_ms: PLAYER_CALL_TIMEOUT_MS,
    };
    proof {
        assert(r@ =~~= spec_seek_call(player@, offset_micros as int));
    }
    r
}

/// Builds the relative-seek call with the offset negated before it is
/// sent; the call shape is otherwise the seek's own.
pub fn seek_reverse(player: &Player, offset_micros: i64) -> (r: MethodCall)
    requires
        offset_micros != i64::MIN,
    ensures
        r@ == spec_seek_reverse_call(player@, offset_micros as int),
{
    let negated: i64 = -offset_micros;
    let mut args: Vec<PropValue> = Vec::new();
    args.push(PropValue::Int64(negated));
    let r = MethodCall {
        destination: player.destination(),
        path: object_path().to_owned(),
        interface: player_interface().to_owned(),
        member: "Seek".to_owned(),
        args: args,
        timeout_ms: PLAYER_CALL_TIMEOUT_MS,
    };
    proof {
        assert(r@ =~~= spec_seek_reverse_call(player@, offset_micros as int));
    }
    r
}

/// Reversing a seek is seeking by the negated offset: the two operations
/// send the same outbound call for any offset.
pub proof fn lemma_seek_reverse_is_seek_negated(name: Seq<char>, offset_micros: int)
    ensures
        spec_seek_reverse_call(name, offset_micros) == spec_seek_call(name, -offset_micros),
{
    assert(spec_seek_reverse_call(name, offset_micros) =~~= spec_seek_call(
        name,
        -offset_micros,
    ));
}

/// The metadata key under which a player reports its current track.
pub open spec fn spec_track_id_key() -> Seq<char> {
    "mpris:trackid"@
}

/// What the second step of a position set produces from the outcome of the
/// first: a failed fetch is the operation's failure; a snapshot without a
/// track identifier is a missing property; an identifier that is neither an
/// object path nor a string is a type mismatch; otherwise the position-set
/// call, addressed with that identifier.
pub open spec fn spec_set_position(
    name: Seq<char>,
    fetched: Result<Map<Seq<char>, PropValueView>, MprisErrorView>,
    position_micros: int,
) -> Result<CallView, MprisErrorView> {
    match fetched {
        Result::Err(e) => Result::Err(e),
        Result::Ok(m) => if !m.contains_key(spec_track_id_key()) {
            Result::Err(MprisErrorView::MissingProperty)
        } else {
            match m[spec_track_id_key()] {
                PropValueView::ObjectPath(t) => Result::Ok(
                    spec_set_position_call(name, t, position_micros),
                ),
                PropValueView::Str(t) => Result::Ok(
                    spec_set_position_call(name, t, position_micros),
                ),
                _ => Result::Err(MprisErrorView::TypeMismatch),
            }
        },
    }
}

/// The ghost shape of a track fetch's outcome.
pub open spec fn spec_fetched_view(fetched: Result<Metadata, MprisError>) -> Result<
    Map<Seq<char>, PropValueView>,
    MprisErrorView,
> {
    match fetched {
        Result::Ok(m) => Result::Ok(m@),
        Result::Err(e) => Result::Err(e@),
    }
}

/// That a position set returned what its spec prescribes for the given
/// fetch outcome.
pub open spec fn spec_set_position_result(
    name: Seq<char>,
    fetched: Result<Metadata, MprisError>,
    position_micros: int,
    r: Result<MethodCall, MprisError>,
) -> bool {
    match spec_set_position(name, spec_fetched_view(fetched), position_micros) {
        Result::Ok(cv) => r matches Result::Ok(c) && c@ == cv,
        Result::Err(ev) => r matches Result::Err(e) && e@ == ev,
    }
}

/// The second half of the two-step position-set protocol. The first step
/// is the metadata fetch built by `get_metadata`; its outcome comes in
/// here, so a position-set call can only ever follow a fetch. The call is
/// addressed with the fetched track identifier: the remote protocol
/// demands that the caller prove it knows the current track, and rejects
/// the call itself if the track has changed in between.
pub fn set_position(
    player: &Player,
    fetched: Result<Metadata, MprisError>,
    position_micros: i64,
) -> (r: Result<MethodCall, MprisError>)
    ensures
        spec_set_position_result(player@, fetched, position_micros as int, r),
{
    let m = match fetched {
        Result::Err(e) => {
            return Result::Err(e);
        },
        Result::Ok(m) => m,
    };
    let track: String = match m.get("mpris:trackid") {
        None => {
            return Result::Err(MprisError::MissingProperty);
        },
        Some(v) => match v {
            PropValue::ObjectPath(t) => t.clone(),
            PropValue::Str(t) => t.clone(),
            _ => {
                return Result::Err(MprisError::TypeMismatch);
            },
        },
    };
    let ghost tv = track@;
    let mut args: Vec<PropValue> = Vec::new();
    args.push(PropValue::ObjectPath(track));
    args.push(PropValue::Int64(position_micros));
    let r = MethodCall {
        destination: player.destination(),
        path: object_path().to_owned(),
        interface: player_interface().to_owned(),
        member: "SetPosition".to_owned(),
        args: args,
        timeout_ms: PLAYER_CALL_TIMEOUT_MS,
    };
    proof {
        assert(r@ =~~= spec_set_position_call(player@, tv, position_micros as int));
    }
    Result::Ok(r)
}

/// When the track fetch fails, the position set fails with that same
/// error: no position-set call is produced from a failed fetch.
pub proof fn lemma_set_position_fetch_failure(
    name: Seq<char>,
    e: MprisErrorView,
    position_micros: int,
)
    ensures
        spec_set_position(name, Result::Err(e), position_micros) == Result::<
            CallView,
            MprisErrorView,
        >::Err(e),
{
}

/// Builds the call that opens a track by its URI. The URI is passed
/// through verbatim: the remote player, not this library, judges whether
/// it is acceptable.
pub fn open_uri(player: &Player, uri: &str) -> (r: MethodCall)
    ensures
        r@ == spec_open_uri_call(player@, uri@),
{
    let mut args: Vec<PropValue> = Vec::new();
    args.push(PropValue::Str(uri.to_owned()));
    let r = MethodCall {
        destination: player.destination(),
        path: object_path().to_owned(),
        interface: player_interface().to_owned(),
        member: "OpenUri".to_owned(),
        args: args,
        timeout_ms: PLAYER_CALL_TIMEOUT_MS,
    };
    proof {
        assert(r@ =~~= spec_open_uri_call(player@, uri@));
    }
    r
}

} // verus!

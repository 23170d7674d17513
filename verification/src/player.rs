//! The player proxy: a lightweight, possibly-stale handle for one named
//! player. Construction is the single validation point; every later
//! operation builds an addressed request from the stored name without
//! re-validating.

use vstd::prelude::*;
use vstd::string::StrSliceExecFns;
use vstd::string::StringExecFns;

use crate::error::MprisError;
use crate::methods;
use crate::metadata::Metadata;
use crate::proto::mpris_prefix;
use crate::proto::object_path;
use crate::proto::spec_object_path;
use crate::proto::spec_player_destination;
use crate::proto::spec_prop_get;
use crate::proto::spec_prop_set;
use crate::proto::spec_seek_call;
use crate::proto::spec_seek_reverse_call;
use crate::proto::spec_control_call;
use crate::proto::spec_open_uri_call;
use crate::proto::MethodCall;
use crate::proto::PropGet;
use crate::proto::PropSet;
use crate::proto::PropValue;
use crate::proto::ProxyAddress;
use crate::proto::PLAYER_CALL_TIMEOUT_MS;
use crate::util::spec_active_names;
use crate::util::validate;

verus! {

/// A handle for one MPRIS player, holding the name it was validated under.
pub struct Player {
    pub name: String,
}

impl View for Player {
    type V = Seq<char>;

    open spec fn view(&self) -> Seq<char> {
        self.name@
    }
}

impl DeepView for Player {
    type V = Seq<char>;

    open spec fn deep_view(&self) -> Seq<char> {
        self.name@
    }
}

impl Player {
    /// Creates a handle for the named player, confirming against the given
    /// enumeration result that an active player of that name is currently
    /// present. This is the single validation point: an absent name is
    /// rejected here, and no later operation re-validates. The empty name
    /// is rejected outright, so a constructed handle always carries a
    /// non-empty name — a bus name cannot end in a period, so only a
    /// malformed enumeration result could offer the empty player name at
    /// all.
    pub fn try_new(name: &str, services: &Vec<String>) -> (r: Result<Player, MprisError>)
        ensures
            r is Ok <==> name@.len() > 0 && spec_active_names(services.deep_view()).contains(
                name@,
            ),
            r matches Ok(p) ==> p@ == name@ && p@.len() > 0,
            r matches Err(e) ==> e is InvalidPlayer,
    {
        if name.is_empty() {
            return Err(MprisError::InvalidPlayer);
        }
        if !validate(name, services) {
            return Err(MprisError::InvalidPlayer);
        }
        Ok(Player { name: name.to_owned() })
    }

    /// The bus address this player's calls are sent to.
    pub fn destination(&self) -> (r: String)
        ensures
            r@ == spec_player_destination(self@),
    {
        let mut d = mpris_prefix().to_owned();
        d.append(self.name.as_str());
        d
    }

    /// The addressed handle the transport dispatches through: the player's
    /// bus address, the one MPRIS object path, and the fixed per-call
    /// timeout.
    pub fn get_proxy(&self) -> (r: ProxyAddress)
        ensures
            r.destination@ == spec_player_destination(self@),
            r.path@ == spec_object_path(),
            r.timeout_ms == PLAYER_CALL_TIMEOUT_MS,
    {
        ProxyAddress {
            destination: self.destination(),
            path: object_path().to_owned(),
            timeout_ms: PLAYER_CALL_TIMEOUT_MS,
        }
    }

    /// Builds the call that skips to the next track.
    pub fn next(&self) -> (r: MethodCall)
        ensures
            r@ == spec_control_call(self@, "Next"@),
    {
        methods::next(self)
    }

    /// Builds the call that skips to the previous track.
    pub fn previous(&self) -> (r: MethodCall)
        ensures
            r@ == spec_control_call(self@, "Previous"@),
    {
        methods::previous(self)
    }

    /// Builds the call that pauses the current track.
    pub fn pause(&self) -> (r: MethodCall)
        ensures
            r@ == spec_control_call(self@, "Pause"@),
    {
        methods::pause(self)
    }

    /// Builds the call that starts or resumes the current track.
    pub fn play(&self) -> (r: MethodCall)
        ensures
            r@ == spec_control_call(self@, "Play"@),
    {
        methods::play(self)
    }

    /// Builds the call that toggles between playing and paused.
    pub fn play_pause(&self) -> (r: MethodCall)
        ensures
            r@ == spec_control_call(self@, "PlayPause"@),
    {
        methods::play_pause(self)
    }

    /// Builds the call that stops playback.
    pub fn stop(&self) -> (r: MethodCall)
        ensures
            r@ == spec_control_call(self@, "Stop"@),
    {
        methods::stop(self)
    }

    /// Builds the read of the full metadata property.
    pub fn get_metadata(&self) -> (r: PropGet)
        ensures
            r@ == spec_prop_get(self@, "Metadata"@),
    {
        methods::get_metadata(self)
    }

    /// Builds the read of one player property.
    pub fn get_property(&self, property: &str) -> (r: PropGet)
        ensures
            r@ == spec_prop_get(self@, property@),
    {
        methods::get_property(self, property)
    }

    /// Builds the write of one player property.
    pub fn set_property(&self, property: &str, value: PropValue) -> (r: PropSet)
        ensures
            r@ == spec_prop_set(self@, property@, value@),
    {
        methods::set_property(self, property, value)
    }

    /// Builds the relative-seek call for a signed microsecond offset.
    pub fn seek(&self, offset_micros: i64) -> (r: MethodCall)
        ensures
            r@ == spec_seek_call(self@, offset_micros as int),
    {
        methods::seek(self, offset_micros)
    }

    /// Builds the relative-seek call with the offset negated.
    pub fn seek_reverse(&self, offset_micros: i64) -> (r: MethodCall)
        requires
            offset_micros != i64::MIN,
        ensures
            r@ == spec_seek_reverse_call(self@, offset_micros as int),
    {
        methods::seek_reverse(self, offset_micros)
    }

    /// Turns the outcome of the track-identifier fetch into the
    /// position-set call, or into the failure that stops the operation; see
    /// the free function of the same name.
    pub fn set_position(&self, fetched: Result<Metadata, MprisError>, position_micros: i64) -> (r:
        Result<MethodCall, MprisError>)
        ensures
            methods::spec_set_position_result(self@, fetched, position_micros as int, r),
    {
        methods::set_position(self, fetched, position_micros)
    }

    /// Builds the call that opens a track by its URI, passed through
    /// verbatim.
    pub fn open_uri(&self, uri: &str) -> (r: MethodCall)
        ensures
            r@ == spec_open_uri_call(self@, uri@),
    {
        methods::open_uri(self, uri)
    }
}

} // verus!

//! The outbound shapes of the MPRIS protocol: the addressing constants, the
//! closed set of value types that calls and properties carry, and the three
//! kinds of request a caller hands to the bus transport — a method call, a
//! property read, and a property write. Each exec type has a ghost view, and
//! the spec functions here say exactly which view every builder in the
//! library must produce.

use vstd::prelude::*;

verus! {

/// The service-name prefix under which every MPRIS player registers.
pub open spec fn spec_mpris_prefix() -> Seq<char> {
    "org.mpris.MediaPlayer2."@
}

/// The one object path on which a player exposes its control surface.
pub open spec fn spec_object_path() -> Seq<char> {
    "/org/mpris/MediaPlayer2"@
}

/// The interface that carries the playback commands and properties.
pub open spec fn spec_player_interface() -> Seq<char> {
    "org.mpris.MediaPlayer2.Player"@
}

/// The bus address of a player: the MPRIS prefix followed by its name.
pub open spec fn spec_player_destination(name: Seq<char>) -> Seq<char> {
    spec_mpris_prefix() + name
}

pub fn mpris_prefix() -> (r: &'static str)
    ensures
        r@ == spec_mpris_prefix(),
{
    "org.mpris.MediaPlayer2."
}

pub fn object_path() -> (r: &'static str)
    ensures
        r@ == spec_object_path(),
{
    "/org/mpris/MediaPlayer2"
}

pub fn player_interface() -> (r: &'static str)
    ensures
        r@ == spec_player_interface(),
{
    "org.mpris.MediaPlayer2.Player"
}

/// The closed set of value types the protocol's calls and properties use:
/// strings, object paths, signed and unsigned integers, booleans and string
/// lists. A remote value outside this set cannot be represented and is
/// reported by the transport layer as a type mismatch.
#[derive(Debug, PartialEq)]
pub enum PropValue {
    Str(String),
    ObjectPath(String),
    Int64(i64),
    UInt64(u64),
    Bool(bool),
    StrList(Vec<String>),
}

pub ghost enum PropValueView {
    Str(Seq<char>),
    ObjectPath(Seq<char>),
    Int64(int),
    UInt64(int),
    Bool(bool),
    StrList(Seq<Seq<char>>),
}

impl View for PropValue {
    type V = PropValueView;

    open spec fn view(&self) -> PropValueView {
        match self {
            PropValue::Str(s) => PropValueView::Str(s@),
            PropValue::ObjectPath(s) => PropValueView::ObjectPath(s@),
            PropValue::Int64(n) => PropValueView::Int64(*n as int),
            PropValue::UInt64(n) => PropValueView::UInt64(*n as int),
            PropValue::Bool(b) => PropValueView::Bool(*b),
            PropValue::StrList(l) => PropValueView::StrList(l.deep_view()),
        }
    }
}

impl DeepView for PropValue {
    type V = PropValueView;

    open spec fn deep_view(&self) -> PropValueView {
        self.view()
    }
}

impl PropValue {
    /// The held string, when this is a string value.
    pub fn as_str(&self) -> (r: Option<&String>)
        ensures
            r matches Some(s) ==> self@ == PropValueView::Str(s@),
            r is None ==> !(self@ is Str),
    {
        match self {
            PropValue::Str(s) => Some(s),
            _ => None,
        }
    }

    /// The held path, when this is an object path.
    pub fn as_object_path(&self) -> (r: Option<&String>)
        ensures
            r matches Some(s) ==> self@ == PropValueView::ObjectPath(s@),
            r is None ==> !(self@ is ObjectPath),
    {
        match self {
            PropValue::ObjectPath(s) => Some(s),
            _ => None,
        }
    }

    /// The held integer, when this is a signed integer.
    pub fn as_i64(&self) -> (r: Option<i64>)
        ensures
            r matches Some(n) ==> self@ == PropValueView::Int64(n as int),
            r is None ==> !(self@ is Int64),
    {
        match self {
            PropValue::Int64(n) => Some(*n),
            _ => None,
        }
    }

    /// The held integer, when this is an unsigned integer.
    pub fn as_u64(&self) -> (r: Option<u64>)
        ensures
            r matches Some(n) ==> self@ == PropValueView::UInt64(n as int),
            r is None ==> !(self@ is UInt64),
    {
        match self {
            PropValue::UInt64(n) => Some(*n),
            _ => None,
        }
    }

    /// The held boolean, when this is a boolean.
    pub fn as_bool(&self) -> (r: Option<bool>)
        ensures
            r matches Some(b) ==> self@ == PropValueView::Bool(b),
            r is None ==> !(self@ is Bool),
    {
        match self {
            PropValue::Bool(b) => Some(*b),
            _ => None,
        }
    }

    /// The held list, when this is a string list.
    pub fn as_str_list(&self) -> (r: Option<&Vec<String>>)
        ensures
            r matches Some(l) ==> self@ == PropValueView::StrList(l.deep_view()),
            r is None ==> !(self@ is StrList),
    {
        match self {
            PropValue::StrList(l) => Some(l),
            _ => None,
        }
    }
}

/// The addressed handle for one player: where its calls go, and the fixed
/// per-call timeout every request against it is bounded by.
#[derive(Debug, PartialEq)]
pub struct ProxyAddress {
    pub destination: String,
    pub path: String,
    pub timeout_ms: u64,
}

/// A method call for the transport to dispatch: fully addressed, with the
/// member name and its arguments.
#[derive(Debug, PartialEq)]
pub struct MethodCall {
    pub destination: String,
    pub path: String,
    pub interface: String,
    pub member: String,
    pub args: Vec<PropValue>,
    pub timeout_ms: u64,
}

#[verifier::ext_equal]
pub ghost struct CallView {
    pub destination: Seq<char>,
    pub path: Seq<char>,
    pub interface: Seq<char>,
    pub member: Seq<char>,
    pub args: Seq<PropValueView>,
    pub timeout_ms: u64,
}

impl View for MethodCall {
    type V = CallView;

    open spec fn view(&self) -> CallView {
        CallView {
            destination: self.destination@,
            path: self.path@,
            interface: self.interface@,
            member: self.member@,
            args: self.args.deep_view(),
            timeout_ms: self.timeout_ms,
        }
    }
}

/// A property read for the transport to dispatch.
#[derive(Debug, PartialEq)]
pub struct PropGet {
    pub destination: String,
    pub path: String,
    pub interface: String,
    pub property: String,
    pub timeout_ms: u64,
}

#[verifier::ext_equal]
pub ghost struct PropGetView {
    pub destination: Seq<char>,
    pub path: Seq<char>,
    pub interface: Seq<char>,
    pub property: Seq<char>,
    pub timeout_ms: u64,
}

impl View for PropGet {
    type V = PropGetView;

    open spec fn view(&self) -> PropGetView {
        PropGetView {
            destination: self.destination@,
            path: self.path@,
            interface: self.interface@,
            property: self.property@,
            timeout_ms: self.timeout_ms,
        }
    }
}

/// A property write for the transport to dispatch.
#[derive(Debug, PartialEq)]
pub struct PropSet {
    pub destination: String,
    pub path: String,
    pub interface: String,
    pub property: String,
    pub value: PropValue,
    pub timeout_ms: u64,
}

#[verifier::ext_equal]
pub ghost struct PropSetView {
    pub destination: Seq<char>,
    pub path: Seq<char>,
    pub interface: Seq<char>,
    pub property: Seq<char>,
    pub value: PropValueView,
    pub timeout_ms: u64,
}

impl View for PropSet {
    type V = PropSetView;

    open spec fn view(&self) -> PropSetView {
        PropSetView {
            destination: self.destination@,
            path: self.path@,
            interface: self.interface@,
            property: self.property@,
            value: self.value@,
            timeout_ms: self.timeout_ms,
        }
    }
}

/// How long a call against a player may run before the transport reports a
/// timeout.
pub const PLAYER_CALL_TIMEOUT_MS: u64 = 5000;

/// How long the name-enumeration call may run.
pub const LIST_NAMES_TIMEOUT_MS: u64 = 1000;

/// The view of a zero-argument playback command addressed to one player.
pub open spec fn spec_control_call(name: Seq<char>, member: Seq<char>) -> CallView {
    CallView {
        destination: spec_player_destination(name),
        path: spec_object_path(),
        interface: spec_player_interface(),
        member: member,
        args: Seq::empty(),
        timeout_ms: PLAYER_CALL_TIMEOUT_MS,
    }
}

/// The view of the relative-seek call: one signed microsecond offset.
pub open spec fn spec_seek_call(name: Seq<char>, offset_micros: int) -> CallView {
    CallView {
        destination: spec_player_destination(name),
        path: spec_object_path(),
        interface: spec_player_interface(),
        member: "Seek"@,
        args: seq![PropValueView::Int64(offset_micros)],
        timeout_ms: PLAYER_CALL_TIMEOUT_MS,
    }
}

/// The view of the reverse-seek call: the same call shape as the seek,
/// written out with the offset negated before it is sent.
pub open spec fn spec_seek_reverse_call(name: Seq<char>, offset_micros: int) -> CallView {
    CallView {
        destination: spec_player_destination(name),
        path: spec_object_path(),
        interface: spec_player_interface(),
        member: "Seek"@,
        args: seq![PropValueView::Int64(-offset_micros)],
        timeout_ms: PLAYER_CALL_TIMEOUT_MS,
    }
}

/// The view of the position-set call: the track identifier the caller just
/// fetched, then the requested position in microseconds.
pub open spec fn spec_set_position_call(
    name: Seq<char>,
    track_id: Seq<char>,
    position_micros: int,
) -> CallView {
    CallView {
        destination: spec_player_destination(name),
        path: spec_object_path(),
        interface: spec_player_interface(),
        member: "SetPosition"@,
        args: seq![
            PropValueView::ObjectPath(track_id),
            PropValueView::Int64(position_micros),
        ],
        timeout_ms: PLAYER_CALL_TIMEOUT_MS,
    }
}

/// The view of the URI-open call: the URI is passed through verbatim; the
/// remote player, not this library, judges whether it is acceptable.
pub open spec fn spec_open_uri_call(name: Seq<char>, uri: Seq<char>) -> CallView {
    CallView {
        destination: spec_player_destination(name),
        path: spec_object_path(),
        interface: spec_player_interface(),
        member: "OpenUri"@,
        args: seq![PropValueView::Str(uri)],
        timeout_ms: PLAYER_CALL_TIMEOUT_MS,
    }
}

/// The view of a property read against the player interface.
pub open spec fn spec_prop_get(name: Seq<char>, property: Seq<char>) -> PropGetView {
    PropGetView {
        destination: spec_player_destination(name),
        path: spec_object_path(),
        interface: spec_player_interface(),
        property: property,
        timeout_ms: PLAYER_CALL_TIMEOUT_MS,
    }
}

/// The view of a property write against the player interface.
pub open spec fn spec_prop_set(
    name: Seq<char>,
    property: Seq<char>,
    value: PropValueView,
) -> PropSetView {
    PropSetView {
        destination: spec_player_destination(name),
        path: spec_object_path(),
        interface: spec_player_interface(),
        property: property,
        value: value,
        timeout_ms: PLAYER_CALL_TIMEOUT_MS,
    }
}

} // verus!

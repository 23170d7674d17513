//! The error taxonomy of the library. Every operation surfaces its failure
//! as one of these typed values; nothing is retried internally, and player
//! discovery is the one place that locally absorbs a failure.

use vstd::prelude::*;

use crate::util::str_eq;

verus! {

/// What can go wrong, and who detected it.
#[derive(Debug)]
pub enum MprisError {
    /// The candidate player name was absent from the bus at validation time.
    InvalidPlayer,
    /// A connection-level failure or a timeout, the enumeration call
    /// included; carries the transport's own description.
    Transport(String),
    /// The remote player rejected or failed a call — for instance a stale
    /// track on a position set, or a player that has since exited.
    RemoteMethod(String),
    /// A metadata key that the retrieved map does not hold.
    MissingProperty,
    /// A property name the remote player does not recognize.
    UnknownProperty,
    /// A remote value that cannot be coerced to the requested type.
    TypeMismatch,
    /// The bus rejected a subscription's filter rule; nothing was recorded.
    FilterRegistration,
    /// Some subscriptions could not be removed; carries the handles that are
    /// still registered with the bus.
    PartialCleanup(Vec<u64>),
}

/// The ghost shape of an error: the same variants over mathematical values.
pub ghost enum MprisErrorView {
    InvalidPlayer,
    Transport(Seq<char>),
    RemoteMethod(Seq<char>),
    MissingProperty,
    UnknownProperty,
    TypeMismatch,
    FilterRegistration,
    PartialCleanup(Seq<u64>),
}

impl View for MprisError {
    type V = MprisErrorView;

    open spec fn view(&self) -> MprisErrorView {
        match self {
            MprisError::InvalidPlayer => MprisErrorView::InvalidPlayer,
            MprisError::Transport(m) => MprisErrorView::Transport(m@),
            MprisError::RemoteMethod(m) => MprisErrorView::RemoteMethod(m@),
            MprisError::MissingProperty => MprisErrorView::MissingProperty,
            MprisError::UnknownProperty => MprisErrorView::UnknownProperty,
            MprisError::TypeMismatch => MprisErrorView::TypeMismatch,
            MprisError::FilterRegistration => MprisErrorView::FilterRegistration,
            MprisError::PartialCleanup(h) => MprisErrorView::PartialCleanup(h@),
        }
    }
}

/// The bus error names that signal a connection-level failure or a
/// timeout rather than a decision of the remote player.
pub open spec fn spec_is_transport_error_name(name: Seq<char>) -> bool {
    ||| name == "org.freedesktop.DBus.Error.NoReply"@
    ||| name == "org.freedesktop.DBus.Error.Timeout"@
    ||| name == "org.freedesktop.DBus.Error.TimedOut"@
    ||| name == "org.freedesktop.DBus.Error.Disconnected"@
    ||| name == "org.freedesktop.DBus.Error.NoServer"@
}

/// The bus error names under which a property access is refused because
/// the player does not recognize the property.
pub open spec fn spec_is_unknown_property_name(name: Seq<char>) -> bool {
    ||| name == "org.freedesktop.DBus.Error.UnknownProperty"@
    ||| name == "org.freedesktop.DBus.Error.InvalidArgs"@
}

fn is_transport_error_name(name: &str) -> (r: bool)
    ensures
        r == spec_is_transport_error_name(name@),
{
    str_eq(name, "org.freedesktop.DBus.Error.NoReply") || str_eq(
        name,
        "org.freedesktop.DBus.Error.Timeout",
    ) || str_eq(name, "org.freedesktop.DBus.Error.TimedOut") || str_eq(
        name,
        "org.freedesktop.DBus.Error.Disconnected",
    ) || str_eq(name, "org.freedesktop.DBus.Error.NoServer")
}

fn is_unknown_property_name(name: &str) -> (r: bool)
    ensures
        r == spec_is_unknown_property_name(name@),
{
    str_eq(name, "org.freedesktop.DBus.Error.UnknownProperty") || str_eq(
        name,
        "org.freedesktop.DBus.Error.InvalidArgs",
    )
}

/// Classifies a failed method call by the bus error's name: a
/// connection-level failure or timeout is a transport error, and any other
/// failure is the remote player rejecting or failing the call — for
/// instance one against a player that has since exited. The error's own
/// description is carried either way.
pub fn classify_method_error(name: &str, message: String) -> (r: MprisError)
    ensures
        r@ == if spec_is_transport_error_name(name@) {
            MprisErrorView::Transport(message@)
        } else {
            MprisErrorView::RemoteMethod(message@)
        },
{
    if is_transport_error_name(name) {
        MprisError::Transport(message)
    } else {
        MprisError::RemoteMethod(message)
    }
}

/// Classifies a failed property access by the bus error's name: a
/// property the player does not recognize is its own failure; any other
/// failure of the access is a transport error carrying the description.
pub fn classify_property_error(name: &str, message: String) -> (r: MprisError)
    ensures
        r@ == if spec_is_unknown_property_name(name@) {
            MprisErrorView::UnknownProperty
        } else {
            MprisErrorView::Transport(message@)
        },
{
    if is_unknown_property_name(name) {
        MprisError::UnknownProperty
    } else {
        MprisError::Transport(message)
    }
}

impl MprisError {
    /// A short fixed description of the error's kind.
    pub fn kind_message(&self) -> (r: &'static str)
        ensures
            r@ == match self@ {
                MprisErrorView::InvalidPlayer => "The provided player was invalid."@,
                MprisErrorView::Transport(_) => "The connection to the bus failed."@,
                MprisErrorView::RemoteMethod(_) => "The remote player rejected the call."@,
                MprisErrorView::MissingProperty => "The metadata did not hold that key."@,
                MprisErrorView::UnknownProperty => "The player does not know that property."@,
                MprisErrorView::TypeMismatch => "The value did not have the requested type."@,
                MprisErrorView::FilterRegistration => "The bus rejected the filter rule."@,
                MprisErrorView::PartialCleanup(_) => "Some filters could not be removed."@,
            },
    {
        match self {
            MprisError::InvalidPlayer => "The provided player was invalid.",
            MprisError::Transport(_) => "The connection to the bus failed.",
            MprisError::RemoteMethod(_) => "The remote player rejected the call.",
            MprisError::MissingProperty => "The metadata did not hold that key.",
            MprisError::UnknownProperty => "The player does not know that property.",
            MprisError::TypeMismatch => "The value did not have the requested type.",
            MprisError::FilterRegistration => "The bus rejected the filter rule.",
            MprisError::PartialCleanup(_) => "Some filters could not be removed.",
        }
    }
}

} // verus!

//! The event subscription manager: the filter rules for the two MPRIS
//! notification kinds, and the bookkeeping of the handles registered with
//! the bus. The manager's list holds exactly the handles currently
//! registered: a rejected registration records nothing, and a clearing
//! keeps exactly the handles whose removal the bus refused.

use vstd::prelude::*;
use vstd::string::StrSliceExecFns;

use crate::error::MprisError;
use crate::error::MprisErrorView;
use crate::proto::object_path;
use crate::proto::spec_object_path;

verus! {

/// Which kind of MPRIS notification to listen for.
#[derive(Clone, Copy, PartialEq, Eq, Structural, Debug)]
pub enum EventType {
    /// Emitted whenever a player's properties change.
    PropertiesChanged,
    /// Emitted whenever the active track is seeked.
    Seeked,
}

/// The protocol member name that a notification kind matches on.
pub open spec fn spec_member_name(t: EventType) -> Seq<char> {
    match t {
        EventType::PropertiesChanged => "PropertiesChanged"@,
        EventType::Seeked => "Seeked"@,
    }
}

/// A bus-level subscription descriptor: messages are matched by member
/// name and originating object path. The path is the standardized player
/// object path and is not scoped to one player, so a rule receives the
/// events of every player on the bus.
#[derive(Debug, PartialEq)]
pub struct FilterRule {
    pub member: String,
    pub path: String,
}

impl EventType {
    /// The fixed filter rule for this notification kind.
    pub fn filter_rule(&self) -> (r: FilterRule)
        ensures
            r.member@ == spec_member_name(*self),
            r.path@ == spec_object_path(),
    {
        let member = match self {
            EventType::PropertiesChanged => "PropertiesChanged",
            EventType::Seeked => "Seeked",
        };
        FilterRule { member: member.to_owned(), path: object_path().to_owned() }
    }
}

/// The handles whose removal the bus refused, in tracking order.
pub open spec fn spec_failed_removals(tokens: Seq<u64>, removed: Seq<bool>) -> Seq<u64>
    decreases tokens.len(),
{
    if tokens.len() == 0 {
        Seq::empty()
    } else {
        spec_failed_removals(tokens.drop_last(), removed.drop_last()) + if removed.len() > 0
            && removed.last() {
            Seq::empty()
        } else {
            seq![tokens.last()]
        }
    }
}

/// Tracks the subscriptions registered with the bus, so that they can all
/// be released on request.
pub struct EventManager {
    callback_tokens: Vec<u64>,
}

impl View for EventManager {
    type V = Seq<u64>;

    closed spec fn view(&self) -> Seq<u64> {
        self.callback_tokens@
    }
}

impl EventManager {
    /// A manager with nothing tracked.
    pub fn new() -> (r: EventManager)
        ensures
            r@ == Seq::<u64>::empty(),
    {
        EventManager { callback_tokens: Vec::new() }
    }

    /// Records the outcome of registering one filter rule with the bus: a
    /// granted handle is tracked and returned live; a rejected rule is a
    /// registration failure, and the manager is left unchanged — a partial
    /// registration never leaks a tracked-but-unregistered entry.
    pub fn add_callback(&mut self, registration: Option<u64>) -> (r: Result<u64, MprisError>)
        ensures
            registration matches Some(t) ==> final(self)@ == old(self)@.push(t) && r == Ok::<
                u64,
                MprisError,
            >(t),
            registration is None ==> final(self)@ == old(self)@ && (r matches Err(e)
                && e is FilterRegistration),
    {
        match registration {
            Some(token) => {
                self.callback_tokens.push(token);
                Ok(token)
            },
            None => Err(MprisError::FilterRegistration),
        }
    }

    /// The handles currently tracked, in registration order.
    pub fn tracked_handles(&self) -> (r: &Vec<u64>)
        ensures
            r@ == self@,
    {
        &self.callback_tokens
    }

    /// Releases the tracked subscriptions, given which removal requests the
    /// bus accepted, entry for entry. When every removal succeeded —
    /// vacuously so with nothing tracked — nothing remains and the clearing
    /// succeeds. Otherwise the handles that could not be removed stay
    /// tracked, and the failure identifies exactly them: a caller must be
    /// able to tell "fully clean" from "some filters still active".
    pub fn clear_callbacks(&mut self, removed: &Vec<bool>) -> (r: Result<(), MprisError>)
        requires
            removed@.len() == old(self)@.len(),
        ensures
            final(self)@ == spec_failed_removals(old(self)@, removed@),
            spec_failed_removals(old(self)@, removed@).len() == 0 ==> r == Ok::<
                (),
                MprisError,
            >(()),
            spec_failed_removals(old(self)@, removed@).len() != 0 ==> (r matches Err(e) && e@
                == MprisErrorView::PartialCleanup(spec_failed_removals(old(self)@, removed@))),
    {
        let ghost toks: Seq<u64> = self.callback_tokens@;
        let mut failed: Vec<u64> = Vec::new();
        let mut failed_report: Vec<u64> = Vec::new();
        let mut i: usize = 0;
        while i < self.callback_tokens.len()
            invariant
                self.callback_tokens@ == toks,
                removed@.len() == toks.len(),
                i <= toks.len(),
                failed@ == spec_failed_removals(
                    toks.subrange(0, i as int),
                    removed@.subrange(0, i as int),
                ),
                failed_report@ == failed@,
            decreases toks.len() - i,
        {
            proof {
                assert(toks.subrange(0, i + 1).drop_last() =~= toks.subrange(0, i as int));
                assert(removed@.subrange(0, i + 1).drop_last() =~= removed@.subrange(
                    0,
                    i as int,
                ));
            }
            if !removed[i] {
                let token = self.callback_tokens[i];
                failed.push(token);
                failed_report.push(token);
            }
            i = i + 1;
        }
        proof {
            assert(toks.subrange(0, toks.len() as int) =~= toks);
            assert(removed@.subrange(0, removed@.len() as int) =~= removed@);
        }
        self.callback_tokens = failed;
        if failed_report.len() == 0 {
            Ok(())
        } else {
            Err(MprisError::PartialCleanup(failed_report))
        }
    }
}

/// When the bus accepts every removal, a clearing leaves nothing behind,
/// whatever was tracked — in particular none of the filters just
/// registered, and vacuously when nothing was tracked at all.
pub proof fn lemma_clear_all_removed_leaves_none(tokens: Seq<u64>, removed: Seq<bool>)
    requires
        removed.len() == tokens.len(),
        forall|i: int| 0 <= i < removed.len() ==> removed[i],
    ensures
        spec_failed_removals(tokens, removed).len() == 0,
    decreases tokens.len(),
{
    if tokens.len() > 0 {
        lemma_clear_all_removed_leaves_none(tokens.drop_last(), removed.drop_last());
    }
}

/// Registering one subscription and then clearing, with every removal
/// accepted, leaves zero filters tracked.
pub proof fn lemma_register_then_clear_leaves_none(tokens: Seq<u64>, t: u64, removed: Seq<bool>)
    requires
        removed.len() == tokens.push(t).len(),
        forall|i: int| 0 <= i < removed.len() ==> removed[i],
    ensures
        spec_failed_removals(tokens.push(t), removed).len() == 0,
{
    lemma_clear_all_removed_leaves_none(tokens.push(t), removed);
}

} // verus!

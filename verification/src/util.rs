//! Name handling and discovery: stripping the MPRIS service prefix from bus
//! names, filtering an enumeration result down to the active players,
//! validating one candidate name, and building the enumeration call itself.

use vstd::prelude::*;
use vstd::string::StrSliceExecFns;

use crate::metadata::Metadata;
use crate::player::Player;
use crate::proto::spec_mpris_prefix;
use crate::proto::mpris_prefix;
use crate::proto::CallView;
use crate::proto::MethodCall;
use crate::proto::PropValue;
use crate::proto::LIST_NAMES_TIMEOUT_MS;

verus! {

/// Whether a bus service name carries the MPRIS player prefix.
pub open spec fn has_mpris_prefix(s: Seq<char>) -> bool {
    s.len() >= spec_mpris_prefix().len()
        && s.subrange(0, spec_mpris_prefix().len() as int) == spec_mpris_prefix()
}

/// The player name left when the MPRIS prefix is taken off a service name.
pub open spec fn spec_stripped(s: Seq<char>) -> Seq<char> {
    s.subrange(spec_mpris_prefix().len() as int, s.len() as int)
}

/// The active player names in an enumeration result, in bus order: every
/// service name that carries the MPRIS prefix, with the prefix stripped.
pub open spec fn spec_active_names(services: Seq<Seq<char>>) -> Seq<Seq<char>>
    decreases services.len(),
{
    if services.len() == 0 {
        Seq::empty()
    } else {
        spec_active_names(services.drop_last()) + if has_mpris_prefix(services.last()) {
            seq![spec_stripped(services.last())]
        } else {
            Seq::empty()
        }
    }
}

/// Character-for-character string equality.
pub fn str_eq(a: &str, b: &str) -> (r: bool)
    ensures
        r == (a@ == b@),
{
    let alen = a.unicode_len();
    let blen = b.unicode_len();
    if alen != blen {
        return false;
    }
    let mut i: usize = 0;
    while i < alen
        invariant
            alen == a@.len(),
            blen == b@.len(),
            alen == blen,
            i <= alen,
            forall|j: int| 0 <= j < i ==> a@[j] == b@[j],
        decreases alen - i,
    {
        if a.get_char(i) != b.get_char(i) {
            return false;
        }
        i = i + 1;
    }
    proof {
        assert(a@ =~= b@);
    }
    true
}

/// Takes the MPRIS service prefix off a bus name, if the name carries it.
pub fn strip_player_prefix(service: &str) -> (r: Option<String>)
    ensures
        r is Some <==> has_mpris_prefix(service@),
        r matches Some(name) ==> name@ == spec_stripped(service@),
{
    let prefix = mpris_prefix();
    let plen = prefix.unicode_len();
    let slen = service.unicode_len();
    if slen < plen {
        return None;
    }
    let mut i: usize = 0;
    while i < plen
        invariant
            prefix@ == spec_mpris_prefix(),
            plen == spec_mpris_prefix().len(),
            slen == service@.len(),
            plen <= slen,
            i <= plen,
            forall|j: int| 0 <= j < i ==> service@[j] == spec_mpris_prefix()[j],
        decreases plen - i,
    {
        if service.get_char(i) != prefix.get_char(i) {
            proof {
                assert(!has_mpris_prefix(service@)) by {
                    if has_mpris_prefix(service@) {
                        assert(service@.subrange(0, plen as int)[i as int] == service@[i as int]);
                    }
                }
            }
            return None;
        }
        i = i + 1;
    }
    proof {
        assert(service@.subrange(0, plen as int) =~= spec_mpris_prefix());
    }
    let rest = service.substring_char(plen, slen);
    Some(rest.to_owned())
}

/// Filters an enumeration result down to the active player names: keeps the
/// services that carry the MPRIS prefix and strips it from each.
pub fn active_player_names(services: &Vec<String>) -> (r: Vec<String>)
    ensures
        r.deep_view() == spec_active_names(services.deep_view()),
{
    let ghost all: Seq<Seq<char>> = services.deep_view();
    let mut out: Vec<String> = Vec::new();
    let mut i: usize = 0;
    while i < services.len()
        invariant
            all == services.deep_view(),
            i <= services@.len(),
            out.deep_view() == spec_active_names(all.subrange(0, i as int)),
        decreases services@.len() - i,
    {
        let ghost prev = out.deep_view();
        proof {
            assert(all.subrange(0, i + 1).drop_last() =~= all.subrange(0, i as int));
            assert(all.subrange(0, i + 1).last() == services@[i as int]@);
        }
        match strip_player_prefix(services[i].as_str()) {
            Some(name) => {
                let ghost stripped = name@;
                out.push(name);
                proof {
                    assert(out.deep_view() =~= prev.push(stripped));
                    assert(out.deep_view() =~= spec_active_names(all.subrange(0, i + 1)));
                }
            },
            None => {
                proof {
                    assert(out.deep_view() =~= spec_active_names(all.subrange(0, i + 1)));
                }
            },
        }
        i = i + 1;
    }
    proof {
        assert(all.subrange(0, services@.len() as int) =~= all);
    }
    out
}

/// Whether a sequence of strings holds one with the given characters.
pub fn contains_str(v: &Vec<String>, x: &str) -> (r: bool)
    ensures
        r == v.deep_view().contains(x@),
{
    let mut i: usize = 0;
    while i < v.len()
        invariant
            i <= v@.len(),
            forall|j: int| 0 <= j < i ==> v.deep_view()[j] != x@,
        decreases v@.len() - i,
    {
        if str_eq(v[i].as_str(), x) {
            proof {
                assert(v.deep_view()[i as int] == x@);
            }
            return true;
        }
        i = i + 1;
    }
    proof {
        assert(!v.deep_view().contains(x@)) by {
            if v.deep_view().contains(x@) {
                let j = choose|j: int|
                    0 <= j < v.deep_view().len() && v.deep_view()[j] == x@;
                assert(v.deep_view()[j] != x@);
            }
        }
    }
    false
}

/// Confirms that an active player of the candidate name is present in the
/// given enumeration result: the prefix-stripped service names are computed
/// and the candidate is looked up among them. Absence is a normal outcome,
/// not a failure; a failure of the enumeration call itself never reaches
/// this function.
pub fn validate(player_name: &str, services: &Vec<String>) -> (r: bool)
    ensures
        r == spec_active_names(services.deep_view()).contains(player_name@),
{
    let names = active_player_names(services);
    contains_str(&names, player_name)
}

/// The player names that discovery keeps: each non-empty candidate that
/// was still present in the enumeration snapshot taken when its handle was
/// built.
pub open spec fn spec_discovered(cands: Seq<Seq<char>>, snaps: Seq<Seq<Seq<char>>>) -> Seq<
    Seq<char>,
>
    decreases cands.len(),
{
    if cands.len() == 0 {
        Seq::empty()
    } else {
        spec_discovered(cands.drop_last(), snaps.drop_last()) + if cands.last().len() > 0
            && spec_active_names(snaps.last()).contains(cands.last()) {
            seq![cands.last()]
        } else {
            Seq::empty()
        }
    }
}

/// Builds a validated handle for every non-empty candidate player name
/// that is still present in its enumeration snapshot. Each candidate is validated against
/// its own snapshot, as a fresh enumeration is taken per attempt; a name
/// that has vanished in between is silently excluded, never surfaced as a
/// failure — player presence is inherently racy, and partial results are
/// preferred over an all-or-nothing outcome.
pub fn get_all_players(candidates: &Vec<String>, snapshots: &Vec<Vec<String>>) -> (r: Vec<Player>)
    requires
        candidates@.len() == snapshots@.len(),
    ensures
        r.deep_view() == spec_discovered(candidates.deep_view(), snapshots.deep_view()),
{
    let ghost cands: Seq<Seq<char>> = candidates.deep_view();
    let ghost snaps: Seq<Seq<Seq<char>>> = snapshots.deep_view();
    let mut players: Vec<Player> = Vec::new();
    let mut i: usize = 0;
    while i < candidates.len()
        invariant
            cands == candidates.deep_view(),
            snaps == snapshots.deep_view(),
            cands.len() == snaps.len(),
            i <= cands.len(),
            players.deep_view() == spec_discovered(
                cands.subrange(0, i as int),
                snaps.subrange(0, i as int),
            ),
        decreases cands.len() - i,
    {
        let ghost prev = players.deep_view();
        proof {
            assert(cands.subrange(0, i + 1).drop_last() =~= cands.subrange(0, i as int));
            assert(snaps.subrange(0, i + 1).drop_last() =~= snaps.subrange(0, i as int));
            assert(cands.subrange(0, i + 1).last() == candidates@[i as int]@);
            assert(snaps.subrange(0, i + 1).last() == snapshots@[i as int].deep_view());
        }
        match Player::try_new(candidates[i].as_str(), &snapshots[i]) {
            Ok(player) => {
                players.push(player);
                proof {
                    assert(players.deep_view() =~= prev.push(candidates@[i as int]@));
                    assert(players.deep_view() =~= spec_discovered(
                        cands.subrange(0, i + 1),
                        snaps.subrange(0, i + 1),
                    ));
                }
            },
            Err(_) => {
                proof {
                    assert(players.deep_view() =~= spec_discovered(
                        cands.subrange(0, i + 1),
                        snaps.subrange(0, i + 1),
                    ));
                }
            },
        }
        i = i + 1;
    }
    proof {
        assert(cands.subrange(0, cands.len() as int) =~= cands);
        assert(snaps.subrange(0, snaps.len() as int) =~= snaps);
    }
    players
}

/// Gets a value out of a retrieved metadata snapshot; absence is reported
/// as `None`. The closed set of value types takes the place of an
/// open-ended cast.
pub fn prop_cast<'a>(map: &'a Metadata, key: &str) -> (r: Option<&'a PropValue>)
    ensures
        r is Some <==> map@.contains_key(key@),
        r matches Some(v) ==> v@ == map@[key@],
{
    map.get(key)
}

/// The view of the name-enumeration call against the bus's own service.
pub open spec fn spec_list_names_call() -> CallView {
    CallView {
        destination: "org.freedesktop.DBus"@,
        path: "/"@,
        interface: "org.freedesktop.DBus"@,
        member: "ListNames"@,
        args: Seq::empty(),
        timeout_ms: LIST_NAMES_TIMEOUT_MS,
    }
}

/// Builds the name-enumeration call: every discovery and validation round
/// begins by having the transport dispatch this request.
pub fn list_names_call() -> (r: MethodCall)
    ensures
        r@ == spec_list_names_call(),
{
    let r = MethodCall {
        destination: "org.freedesktop.DBus".to_owned(),
        path: "/".to_owned(),
        interface: "org.freedesktop.DBus".to_owned(),
        member: "ListNames".to_owned(),
        args: Vec::new(),
        timeout_ms: LIST_NAMES_TIMEOUT_MS,
    };
    proof {
        assert(r@ =~~= spec_list_names_call());
    }
    r
}

} // verus!

//! The validity engine: a pure transform that recomputes the `valid`
//! flag of every menu entry from the current profile and the external
//! oracles. Validity is display state only — an invalid entry never
//! blocks progress.

use vstd::prelude::*;
use crate::model::{MenuChoice, Profile, KEYBOARD_ID, NETWORK_ID, TIMEZONE_ID};

verus! {

/// The external facts validity is judged against: the allowed-values
/// lists and the result of the reachability probe.
pub struct Oracles {
    /// Allowed timezone names, in oracle order.
    pub time_zones: Vec<String>,
    /// Allowed keyboard-layout names, in oracle order.
    pub keyboard_layouts: Vec<String>,
    /// Whether the network-reachability probe succeeded.
    pub network_up: bool,
}

/// Whether some entry of the list reads as `s`.
pub open spec fn string_list_contains(l: Seq<String>, s: Seq<char>) -> bool {
    exists|i: int| 0 <= i < l.len() && l[i]@ == s
}

/// The `valid` flag an entry carries after a validity pass: membership
/// of the profile's timezone or keyboard layout in its oracle list,
/// the probe result for the network entry, and the previous flag for
/// every entry without a predicate.
pub open spec fn choice_valid_after(p: Profile, c: MenuChoice, o: Oracles) -> bool {
    if c.id == TIMEZONE_ID {
        string_list_contains(o.time_zones@, p.time_zone@)
    } else if c.id == KEYBOARD_ID {
        string_list_contains(o.keyboard_layouts@, p.keyboard_layout@)
    } else if c.id == NETWORK_ID {
        o.network_up
    } else {
        c.valid
    }
}

/// The whole menu after a validity pass: each entry keeps its name,
/// id and gating flag, and carries its recomputed `valid` flag.
pub open spec fn recompute_spec(p: Profile, cs: Seq<MenuChoice>, o: Oracles) -> Seq<MenuChoice> {
    cs.map(
        |i: int, c: MenuChoice|
            (MenuChoice {
                name: c.name,
                id: c.id,
                valid: choice_valid_after(p, c, o),
                required: c.required,
            }),
    )
}

/// Reports whether `s` occurs in the list.
pub fn string_list_member(l: &Vec<String>, s: &String) -> (r: bool)
    ensures
        r == string_list_contains(l@, s@),
{
    let mut i: usize = 0;
    while i < l.len()
        invariant
            i <= l@.len(),
            forall|j: int| 0 <= j < i ==> l@[j]@ != s@,
        decreases l@.len() - i,
    {
        if l[i] == *s {
            return true;
        }
        i = i + 1;
    }
    false
}

/// Recomputes the `valid` flag of every menu entry from the profile
/// and the oracles; run at the top of every loop iteration, before the
/// menu is rendered, so displayed markers are never stale.
pub fn update_validity(profile: &Profile, choices: Vec<MenuChoice>, oracles: &Oracles) -> (r: Vec<
    MenuChoice,
>)
    ensures
        r@ == recompute_spec(*profile, choices@, *oracles),
{
    let mut out: Vec<MenuChoice> = Vec::new();
    let mut i: usize = 0;
    while i < choices.len()
        invariant
            i <= choices@.len(),
            out@.len() == i,
            forall|j: int| 0 <= j < i ==> out@[j] == recompute_spec(
                *profile,
                choices@,
                *oracles,
            )[j],
        decreases choices@.len() - i,
    {
        let c = &choices[i];
        let flag: bool = if c.id == TIMEZONE_ID {
            string_list_member(&oracles.time_zones, &profile.time_zone)
        } else if c.id == KEYBOARD_ID {
            string_list_member(&oracles.keyboard_layouts, &profile.keyboard_layout)
        } else if c.id == NETWORK_ID {
            oracles.network_up
        } else {
            c.valid
        };
        out.push(
            MenuChoice { name: c.name.clone(), id: c.id, valid: flag, required: c.required },
        );
        i = i + 1;
    }
    proof {
        assert(out@ =~= recompute_spec(*profile, choices@, *oracles));
    }
    out
}

/// A validity pass is idempotent: run twice with an unchanged profile
/// and unchanged oracles, the second pass returns the menu of the
/// first unchanged.
pub proof fn lemma_recompute_idempotent(p: Profile, cs: Seq<MenuChoice>, o: Oracles)
    ensures
        recompute_spec(p, recompute_spec(p, cs, o), o) == recompute_spec(p, cs, o),
{
    let once = recompute_spec(p, cs, o);
    let twice = recompute_spec(p, once, o);
    assert forall|j: int| 0 <= j < once.len() implies twice[j] == once[j] by {
        assert(choice_valid_after(p, once[j], o) == choice_valid_after(p, cs[j], o));
    }
    assert(twice =~= once);
}

/// The timezone entry is valid exactly when the profile's timezone is
/// a member of the timezone oracle list.
pub proof fn lemma_timezone_validity(p: Profile, cs: Seq<MenuChoice>, o: Oracles, j: int)
    requires
        0 <= j < cs.len(),
        cs[j].id == TIMEZONE_ID,
    ensures
        recompute_spec(p, cs, o)[j].valid == string_list_contains(o.time_zones@, p.time_zone@),
{
}

} // verus!

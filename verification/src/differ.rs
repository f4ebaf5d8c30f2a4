//! Change detection between the last accepted snapshot and a freshly polled
//! one: decides whether the externally visible state changed, so the control
//! surface is only re-rendered on a real change.

use vstd::prelude::*;

use crate::status::{AppStatus, AppStatusV, ProfileStatus, ProfileStatusV, ToolStatus};

verus! {

/// First profile in `profiles` whose id is `id`, if any.
pub open spec fn find_profile(profiles: Seq<ProfileStatusV>, id: Seq<char>) -> Option<ProfileStatusV>
    decreases profiles.len(),
{
    if profiles.len() == 0 {
        None
    } else if profiles[0].id == id {
        Some(profiles[0])
    } else {
        find_profile(profiles.drop_first(), id)
    }
}

/// Whether a new-side profile `p` counts as changed against the old snapshot's
/// profile list: its counterpart (matched by id) is missing, or differs in
/// `active_tools` or `tool_status`.
pub open spec fn profile_changed_against(old_profiles: Seq<ProfileStatusV>, p: ProfileStatusV) -> bool {
    match find_profile(old_profiles, p.id) {
        None => true,
        Some(lp) => lp.active_tools != p.active_tools || lp.tool_status != p.tool_status,
    }
}

/// Whether two present snapshots differ in their externally visible state.
///
/// The comparison is asymmetric by design: only profiles present in the new
/// snapshot drive the decision; profiles that disappeared are not checked.
pub open spec fn snapshot_changed(new: AppStatusV, last: AppStatusV) -> bool {
    ||| new.gateway_running != last.gateway_running
    ||| new.active_profile_id != last.active_profile_id
    ||| new.profiles.len() != last.profiles.len()
    ||| exists|i: int|
        0 <= i < new.profiles.len() && profile_changed_against(
            last.profiles,
            #[trigger] new.profiles[i],
        )
}

/// The full equality policy over optional snapshots: both absent means
/// unchanged, exactly one absent means changed, both present defers to
/// `snapshot_changed`.
pub open spec fn status_changed_spec(new: Option<AppStatusV>, last: Option<AppStatusV>) -> bool {
    match (new, last) {
        (Some(s), Some(ls)) => snapshot_changed(s, ls),
        (None, None) => false,
        _ => true,
    }
}

/// Deep equality of two tool entries.
fn tool_status_eq(a: &ToolStatus, b: &ToolStatus) -> (r: bool)
    ensures
        r == (a@ == b@),
{
    let name_eq = a.name == b.name;
    let status_eq = a.status == b.status;
    name_eq && status_eq
}

/// Deep equality of two tool lists.
fn tool_list_eq(a: &Vec<ToolStatus>, b: &Vec<ToolStatus>) -> (r: bool)
    ensures
        r == (a@.map_values(|t: ToolStatus| t@) == b@.map_values(|t: ToolStatus| t@)),
{
    let ghost av = a@.map_values(|t: ToolStatus| t@);
    let ghost bv = b@.map_values(|t: ToolStatus| t@);
    if a.len() != b.len() {
        proof {
            assert(av.len() != bv.len());
        }
        return false;
    }
    let mut i: usize = 0;
    while i < a.len()
        invariant
            i <= a@.len(),
            a@.len() == b@.len(),
            av == a@.map_values(|t: ToolStatus| t@),
            bv == b@.map_values(|t: ToolStatus| t@),
            forall|k: int| 0 <= k < i ==> a@[k]@ == b@[k]@,
        decreases a@.len() - i,
    {
        if !tool_status_eq(&a[i], &b[i]) {
            proof {
                assert(av[i as int] != bv[i as int]);
            }
            return false;
        }
        i = i + 1;
    }
    proof {
        assert(av =~= bv);
    }
    true
}

/// Deep equality of two optional tool lists, as `tool_status` is compared by
/// the differ.
fn tool_status_opt_eq(a: &Option<Vec<ToolStatus>>, b: &Option<Vec<ToolStatus>>) -> (r: bool)
    ensures
        r == (opt_tools_view(*a) == opt_tools_view(*b)),
{
    match (a, b) {
        (None, None) => true,
        (Some(x), Some(y)) => tool_list_eq(x, y),
        _ => false,
    }
}

/// View of an optional tool list, as it appears inside `ProfileStatusV`.
pub open spec fn opt_tools_view(o: Option<Vec<ToolStatus>>) -> Option<Seq<crate::status::ToolStatusV>> {
    match o {
        Some(ts) => Some(ts@.map_values(|t: ToolStatus| t@)),
        None => None,
    }
}

/// Index of the first profile in `profiles` carrying `id`, if any.
fn find_profile_index(profiles: &Vec<ProfileStatus>, id: &String) -> (r: Option<usize>)
    ensures
        match r {
            Some(j) => {
                &&& j < profiles@.len()
                &&& find_profile(profiles@.map_values(|p: ProfileStatus| p@), id@) == Some(
                    profiles@[j as int]@,
                )
            },
            None => find_profile(profiles@.map_values(|p: ProfileStatus| p@), id@) is None,
        },
{
    let ghost pv = profiles@.map_values(|p: ProfileStatus| p@);
    proof {
        assert(pv.skip(0) =~= pv);
    }
    let mut i: usize = 0;
    while i < profiles.len()
        invariant
            i <= profiles@.len(),
            pv == profiles@.map_values(|p: ProfileStatus| p@),
            find_profile(pv, id@) == find_profile(pv.skip(i as int), id@),
        decreases profiles@.len() - i,
    {
        if profiles[i].id == *id {
            proof {
                assert(pv.skip(i as int)[0] == pv[i as int]);
            }
            return Some(i);
        }
        proof {
            assert(pv.skip(i as int)[0] == pv[i as int]);
            assert(pv.skip(i as int).drop_first() =~= pv.skip(i + 1));
        }
        i = i + 1;
    }
    proof {
        assert(pv.skip(i as int).len() == 0);
    }
    None
}

/// Whether two present snapshots differ in their externally visible state.
pub fn snapshot_changed_exec(new: &AppStatus, last: &AppStatus) -> (r: bool)
    ensures
        r == snapshot_changed(new@, last@),
{
    if new.gateway_running != last.gateway_running {
        return true;
    }
    if !(new.active_profile_id == last.active_profile_id) {
        return true;
    }
    if new.profiles.len() != last.profiles.len() {
        return true;
    }
    let ghost nv = new@.profiles;
    let mut i: usize = 0;
    while i < new.profiles.len()
        invariant
            i <= new.profiles@.len(),
            nv == new@.profiles,
            new@.gateway_running == last@.gateway_running,
            new@.active_profile_id == last@.active_profile_id,
            new@.profiles.len() == last@.profiles.len(),
            forall|k: int|
                0 <= k < i ==> !profile_changed_against(last@.profiles, #[trigger] nv[k]),
        decreases new.profiles@.len() - i,
    {
        let p = &new.profiles[i];
        proof {
            assert(nv[i as int] == p@);
        }
        match find_profile_index(&last.profiles, &p.id) {
            None => {
                return true;
            },
            Some(j) => {
                let lp = &last.profiles[j];
                if lp.active_tools != p.active_tools || !tool_status_opt_eq(
                    &lp.tool_status,
                    &p.tool_status,
                ) {
                    return true;
                }
            },
        }
        i = i + 1;
    }
    false
}

/// Decides whether the externally visible state changed between the last
/// accepted poll result and the new one.
pub fn status_changed(new: &Option<AppStatus>, last: &Option<AppStatus>) -> (r: bool)
    ensures
        r == status_changed_spec(
            crate::status::snapshot_view(*new),
            crate::status::snapshot_view(*last),
        ),
{
    match (new, last) {
        (Some(s), Some(ls)) => snapshot_changed_exec(s, ls),
        (None, None) => false,
        _ => true,
    }
}

/// Two absent results are always reported unchanged.
pub proof fn lemma_absent_pair_unchanged()
    ensures
        !status_changed_spec(None, None),
{
}

/// A snapshot appearing, or disappearing, is always reported changed,
/// whatever the snapshot holds.
pub proof fn lemma_presence_flip_changed(s: AppStatusV)
    ensures
        status_changed_spec(Some(s), None),
        status_changed_spec(None, Some(s)),
{
}

/// In a list with unique ids, looking up the id of the profile at `i` finds
/// exactly that profile.
proof fn lemma_find_unique(profiles: Seq<ProfileStatusV>, i: int)
    requires
        forall|a: int, b: int|
            0 <= a < b < profiles.len() ==> profiles[a].id != profiles[b].id,
        0 <= i < profiles.len(),
    ensures
        find_profile(profiles, profiles[i].id) == Some(profiles[i]),
    decreases i,
{
    if i == 0 {
    } else {
        assert(profiles[0].id != profiles[i].id);
        let rest = profiles.drop_first();
        assert(forall|a: int, b: int|
            0 <= a < b < rest.len() ==> rest[a].id != rest[b].id) by {
            assert(forall|a: int| 0 <= a < rest.len() ==> rest[a] == profiles[a + 1]);
        }
        assert(rest[i - 1] == profiles[i]);
        lemma_find_unique(rest, i - 1);
    }
}

/// Diffing a well-formed snapshot against itself reports unchanged:
/// repeated identical polls cause no re-render.
pub proof fn lemma_identical_unchanged(s: AppStatusV)
    requires
        s.wf(),
    ensures
        !status_changed_spec(Some(s), Some(s)),
{
    assert forall|i: int| 0 <= i < s.profiles.len() implies !profile_changed_against(
        s.profiles,
        #[trigger] s.profiles[i],
    ) by {
        lemma_find_unique(s.profiles, i);
    }
}

} // verus!

use vstd::prelude::*;
use crate::colors::Color;
use crate::idmap::{IdMap, keys_distinct};
use crate::pattern::{Pattern, regex_is_match};
use crate::requests::{
    Commands, PutRequest, requests_view, toggle_group, set_group_color, spec_group_action_uri,
    spec_on_body, spec_hue_sat_body,
};
use crate::selection::{
    strings_view, selected_ids, all_ids, names_text, select_ids, list_names, lemma_selection_partition,
    lemma_selected_membership,
};
use crate::structs::{DB, Group, Named};

verus! {

/// The requests that switch each group of `ids`, in order, on or off.
pub open spec fn group_toggles(db: DB, ids: Seq<Seq<char>>, on: bool) -> Seq<(Seq<char>, Seq<char>)> {
    ids.map_values(|id: Seq<char>| (spec_group_action_uri(db, id), spec_on_body(on)))
}

/// The requests that set each group of `ids`, in order, to `color`.
pub open spec fn group_colorings(db: DB, ids: Seq<Seq<char>>, color: Color) -> Seq<(Seq<char>, Seq<char>)> {
    ids.map_values(
        |id: Seq<char>|
            (spec_group_action_uri(db, id), spec_hue_sat_body(color.spec_value().0, color.spec_value().1)),
    )
}

fn toggle_groups(db: &DB, ids: &Vec<String>, on: bool) -> (rs: Vec<PutRequest>)
    ensures
        requests_view(rs@) == group_toggles(*db, strings_view(ids@), on),
{
    let n = ids.len();
    let mut rs: Vec<PutRequest> = Vec::new();
    let mut i: usize = 0;
    while i < n
        invariant
            n == ids@.len(),
            i <= n,
            rs@.len() == i,
            requests_view(rs@) =~= group_toggles(*db, strings_view(ids@.take(i as int)), on),
        decreases n - i,
    {
        let ghost before = rs@;
        rs.push(toggle_group(db, ids[i].as_str(), on));
        proof {
            assert(strings_view(ids@.take(i + 1)) =~= strings_view(ids@.take(i as int)).push(ids@[i as int]@));
            assert(requests_view(rs@) =~= requests_view(before).push(requests_view(rs@)[i as int]));
        }
        i = i + 1;
    }
    proof {
        assert(ids@.take(n as int) =~= ids@);
    }
    rs
}

fn color_groups(db: &DB, ids: &Vec<String>, color: Color) -> (rs: Vec<PutRequest>)
    ensures
        requests_view(rs@) == group_colorings(*db, strings_view(ids@), color),
{
    let n = ids.len();
    let mut rs: Vec<PutRequest> = Vec::new();
    let mut i: usize = 0;
    while i < n
        invariant
            n == ids@.len(),
            i <= n,
            rs@.len() == i,
            requests_view(rs@) =~= group_colorings(*db, strings_view(ids@.take(i as int)), color),
        decreases n - i,
    {
        let ghost before = rs@;
        rs.push(set_group_color(db, ids[i].as_str(), color));
        proof {
            assert(strings_view(ids@.take(i + 1)) =~= strings_view(ids@.take(i as int)).push(ids@[i as int]@));
            assert(requests_view(rs@) =~= requests_view(before).push(requests_view(rs@)[i as int]));
        }
        i = i + 1;
    }
    proof {
        assert(ids@.take(n as int) =~= ids@);
    }
    rs
}

/// The names of the groups, each followed by a line break.
pub fn list_groups(groups: &IdMap<Group>) -> (s: String)
    ensures
        s@ == names_text(groups@),
{
    list_names(groups)
}

/// Switches on every group whose name `search` matches.
pub fn group_on(db: &DB, search: &Pattern, groups: &IdMap<Group>) -> (c: Commands)
    ensures
        requests_view(c.requests@) == group_toggles(*db, selected_ids(groups@, search@, true), true),
        search@.len() == 0 ==> requests_view(c.requests@) == group_toggles(*db, all_ids(groups@), true),
        c.message@ == "Turning matches on!"@,
{
    let ids = select_ids(groups, search, true);
    Commands { requests: toggle_groups(db, &ids, true), message: String::from_str("Turning matches on!") }
}

/// Switches off every group whose name `search` matches.
pub fn group_off(db: &DB, search: &Pattern, groups: &IdMap<Group>) -> (c: Commands)
    ensures
        requests_view(c.requests@) == group_toggles(*db, selected_ids(groups@, search@, true), false),
        search@.len() == 0 ==> requests_view(c.requests@) == group_toggles(*db, all_ids(groups@), false),
        c.message@ == "Turning matches off!"@,
{
    let ids = select_ids(groups, search, true);
    Commands { requests: toggle_groups(db, &ids, false), message: String::from_str("Turning matches off!") }
}

/// Switches off every group whose name `search` does not match.
pub fn group_off_except(db: &DB, search: &Pattern, groups: &IdMap<Group>) -> (c: Commands)
    ensures
        requests_view(c.requests@) == group_toggles(*db, selected_ids(groups@, search@, false), false),
        search@.len() == 0 ==> c.requests@.len() == 0,
        c.message@ == "Turning matches off!"@,
{
    let ids = select_ids(groups, search, false);
    let requests = toggle_groups(db, &ids, false);
    proof {
        assert(requests_view(requests@).len() == requests@.len());
    }
    Commands { requests, message: String::from_str("Turning matches off!") }
}

/// Sets every group whose name `search` matches to `color`.
pub fn group_color(db: &DB, search: &Pattern, groups: &IdMap<Group>, color: Color) -> (c: Commands)
    ensures
        requests_view(c.requests@) == group_colorings(*db, selected_ids(groups@, search@, true), color),
        search@.len() == 0 ==> requests_view(c.requests@) == group_colorings(*db, all_ids(groups@), color),
        c.message@ == "Changing matches to color!"@,
{
    let ids = select_ids(groups, search, true);
    Commands { requests: color_groups(db, &ids, color), message: String::from_str("Changing matches to color!") }
}

/// Switching groups sends one request per identifier, in order: the i-th
/// goes to the action of the i-th group and carries the on/off body.
pub proof fn lemma_group_toggles_shape(db: DB, ids: Seq<Seq<char>>, on: bool)
    ensures
        group_toggles(db, ids, on).len() == ids.len(),
        forall|i: int|
            0 <= i < ids.len() ==> #[trigger] group_toggles(db, ids, on)[i] == (
                spec_group_action_uri(db, ids[i]),
                spec_on_body(on),
            ),
{
}

/// Colouring groups sends one request per identifier, in order: the i-th
/// goes to the action of the i-th group and carries the colour's hue and
/// saturation.
pub proof fn lemma_group_colorings_shape(db: DB, ids: Seq<Seq<char>>, color: Color)
    ensures
        group_colorings(db, ids, color).len() == ids.len(),
        forall|i: int|
            0 <= i < ids.len() ==> #[trigger] group_colorings(db, ids, color)[i] == (
                spec_group_action_uri(db, ids[i]),
                spec_hue_sat_body(color.spec_value().0, color.spec_value().1),
            ),
{
}

/// Colouring the groups a pattern matches colours each matching group
/// exactly once and no other: a request goes to a group's action exactly
/// when some group with that identifier has a name the pattern matches,
/// and there are as many requests as matching groups.
pub proof fn lemma_group_color_reaches_every_match(
    db: DB,
    groups: Seq<(Seq<char>, Group)>,
    pattern: Seq<char>,
    color: Color,
    id: Seq<char>,
)
    ensures
        group_colorings(db, selected_ids(groups, pattern, true), color).len() == selected_ids(
            groups,
            pattern,
            true,
        ).len(),
        group_colorings(db, selected_ids(groups, pattern, true), color).contains(
            (
                spec_group_action_uri(db, id),
                spec_hue_sat_body(color.spec_value().0, color.spec_value().1),
            ),
        ) <==> exists|i: int|
            0 <= i < groups.len() && #[trigger] groups[i].0 == id && regex_is_match(
                pattern,
                groups[i].1.spec_name(),
            ),
{
    let ids = selected_ids(groups, pattern, true);
    let t = group_colorings(db, ids, color);
    let body = spec_hue_sat_body(color.spec_value().0, color.spec_value().1);
    lemma_selected_membership(groups, pattern, true, id);
    if ids.contains(id) {
        let j = choose|j: int| 0 <= j < ids.len() && ids[j] == id;
        assert(t[j] == (spec_group_action_uri(db, id), body));
    }
    if t.contains((spec_group_action_uri(db, id), body)) {
        let j = choose|j: int| 0 <= j < t.len() && t[j] == (spec_group_action_uri(db, id), body);
        lemma_group_action_uri_injective(db, ids[j], id);
        assert(ids.contains(id));
    }
}

/// The address of a group's action determines the group.
proof fn lemma_group_action_uri_injective(db: DB, a: Seq<char>, b: Seq<char>)
    requires
        spec_group_action_uri(db, a) == spec_group_action_uri(db, b),
    ensures
        a == b,
{
    let p = crate::requests::spec_user_uri(db) + "/groups/"@;
    let q = "/action"@;
    let x = p + a + q;
    let y = p + b + q;
    assert(x.len() == y.len());
    assert(a.len() == b.len());
    assert forall|i: int| 0 <= i < a.len() implies a[i] == b[i] by {
        assert(x[p.len() + i] == a[i]);
        assert(y[p.len() + i] == b[i]);
    }
    assert(a =~= b);
}

proof fn lemma_group_toggles_contain(db: DB, ids: Seq<Seq<char>>, on: bool, id: Seq<char>)
    ensures
        group_toggles(db, ids, on).contains((spec_group_action_uri(db, id), spec_on_body(on)))
            <==> ids.contains(id),
{
    let t = group_toggles(db, ids, on);
    let r = (spec_group_action_uri(db, id), spec_on_body(on));
    if ids.contains(id) {
        let j = choose|j: int| 0 <= j < ids.len() && ids[j] == id;
        assert(t[j] == r);
    }
    if t.contains(r) {
        let j = choose|j: int| 0 <= j < t.len() && t[j] == r;
        lemma_group_action_uri_injective(db, ids[j], id);
        assert(ids[j] == id);
    }
}

/// Switching off the groups a pattern matches and switching off all the
/// others together switch off every group exactly once: as many requests as
/// there are groups, each request that switches off a group sent by one of
/// the two and none by both.
pub proof fn lemma_group_off_and_off_except_cover(db: DB, groups: Seq<(Seq<char>, Group)>, pattern: Seq<char>)
    requires
        keys_distinct(groups),
    ensures
        group_toggles(db, selected_ids(groups, pattern, true), false).len() + group_toggles(
            db,
            selected_ids(groups, pattern, false),
            false,
        ).len() == group_toggles(db, all_ids(groups), false).len(),
        forall|r: (Seq<char>, Seq<char>)| #[trigger]
            group_toggles(db, all_ids(groups), false).contains(r) <==> (group_toggles(
                db,
                selected_ids(groups, pattern, true),
                false,
            ).contains(r) || group_toggles(db, selected_ids(groups, pattern, false), false).contains(r)),
        forall|r: (Seq<char>, Seq<char>)|
            !(#[trigger] group_toggles(db, selected_ids(groups, pattern, true), false).contains(r)
                && group_toggles(db, selected_ids(groups, pattern, false), false).contains(r)),
{
    let on_ids = selected_ids(groups, pattern, true);
    let off_ids = selected_ids(groups, pattern, false);
    let every = all_ids(groups);
    lemma_selection_partition(groups, pattern);
    assert forall|k: Seq<char>| #[trigger] every.contains(k) <==> (on_ids.contains(k) || off_ids.contains(k)) by {
        lemma_selected_membership(groups, pattern, true, k);
        lemma_selected_membership(groups, pattern, false, k);
        if on_ids.contains(k) || off_ids.contains(k) {
            let i = choose|i: int| 0 <= i < groups.len() && #[trigger] groups[i].0 == k && regex_is_match(pattern, groups[i].1.spec_name()) == true
                || 0 <= i < groups.len() && groups[i].0 == k && regex_is_match(pattern, groups[i].1.spec_name()) == false;
            assert(every[i] == k);
        }
    }
    assert forall|r: (Seq<char>, Seq<char>)| #[trigger]
        group_toggles(db, every, false).contains(r) <==> (group_toggles(db, on_ids, false).contains(r)
            || group_toggles(db, off_ids, false).contains(r)) by {
        if r.1 == spec_on_body(false) && exists|k: Seq<char>| r.0 == spec_group_action_uri(db, k) {
            let k = choose|k: Seq<char>| r.0 == spec_group_action_uri(db, k);
            lemma_group_toggles_contain(db, every, false, k);
            lemma_group_toggles_contain(db, on_ids, false, k);
            lemma_group_toggles_contain(db, off_ids, false, k);
        } else {
            lemma_group_toggles_members(db, every, false, r);
            lemma_group_toggles_members(db, on_ids, false, r);
            lemma_group_toggles_members(db, off_ids, false, r);
        }
    }
    assert forall|r: (Seq<char>, Seq<char>)|
        !(#[trigger] group_toggles(db, on_ids, false).contains(r) && group_toggles(db, off_ids, false).contains(r)) by {
        if group_toggles(db, on_ids, false).contains(r) && group_toggles(db, off_ids, false).contains(r) {
            lemma_group_toggles_members(db, on_ids, false, r);
            let k = choose|k: Seq<char>| r.0 == spec_group_action_uri(db, k);
            lemma_group_toggles_contain(db, on_ids, false, k);
            lemma_group_toggles_contain(db, off_ids, false, k);
            lemma_selected_membership(groups, pattern, true, k);
            assert(on_ids.contains(k));
            assert(off_ids.contains(k));
            let i = choose|i: int| 0 <= i < groups.len() && #[trigger] groups[i].0 == k && regex_is_match(pattern, groups[i].1.spec_name()) == true;
            assert(every[i] == k);
            assert(every.contains(k));
        }
    }
}

proof fn lemma_group_toggles_members(db: DB, ids: Seq<Seq<char>>, on: bool, r: (Seq<char>, Seq<char>))
    ensures
        group_toggles(db, ids, on).contains(r) ==> r.1 == spec_on_body(on) && exists|k: Seq<char>|
            r.0 == spec_group_action_uri(db, k),
{
    if group_toggles(db, ids, on).contains(r) {
        let j = choose|j: int| 0 <= j < ids.len() && group_toggles(db, ids, on)[j] == r;
        assert(r.0 == spec_group_action_uri(db, ids[j]));
    }
}

} // verus!

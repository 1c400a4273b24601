use vstd::prelude::*;
use crate::idmap::{IdMap, keys_distinct};
use crate::pattern::{Pattern, regex_is_match};
use crate::requests::{
    Commands, PutRequest, requests_view, toggle_light, spec_light_state_uri, spec_on_body,
};
use crate::selection::{
    strings_view, selected_ids, all_ids, names_text, select_ids, every_id, list_names,
    lemma_selection_partition, lemma_selected_membership, lemma_match_all_selects_all,
};
use crate::structs::{DB, Light, Named};

verus! {

/// The requests that switch each light of `ids`, in order, on or off.
pub open spec fn light_toggles(db: DB, ids: Seq<Seq<char>>, on: bool) -> Seq<(Seq<char>, Seq<char>)> {
    ids.map_values(|id: Seq<char>| (spec_light_state_uri(db, id), spec_on_body(on)))
}

fn toggle_lights(db: &DB, ids: &Vec<String>, on: bool) -> (rs: Vec<PutRequest>)
    ensures
        requests_view(rs@) == light_toggles(*db, strings_view(ids@), on),
{
    let n = ids.len();
    let mut rs: Vec<PutRequest> = Vec::new();
    let mut i: usize = 0;
    while i < n
        invariant
            n == ids@.len(),
            i <= n,
            rs@.len() == i,
            requests_view(rs@) =~= light_toggles(*db, strings_view(ids@.take(i as int)), on),
        decreases n - i,
    {
        let ghost before = rs@;
        rs.push(toggle_light(db, ids[i].as_str(), on));
        proof {
            assert(strings_view(ids@.take(i + 1)) =~= strings_view(ids@.take(i as int)).push(ids@[i as int]@));
            assert(requests_view(rs@) =~= requests_view(before).push(requests_view(rs@)[i as int]));
        }
        i = i + 1;
    }
    proof {
        assert(ids@.take(n as int) =~= ids@);
    }
    rs
}

/// The names of the lights, each followed by a line break.
pub fn list_lights(lights: &IdMap<Light>) -> (s: String)
    ensures
        s@ == names_text(lights@),
{
    list_names(lights)
}

/// Switches on every light whose name `search` matches.
pub fn light_on(db: &DB, search: &Pattern, lights: &IdMap<Light>) -> (c: Commands)
    ensures
        requests_view(c.requests@) == light_toggles(*db, selected_ids(lights@, search@, true), true),
        search@.len() == 0 ==> requests_view(c.requests@) == light_toggles(*db, all_ids(lights@), true),
        c.message@ == "Turning matches on!"@,
{
    let ids = select_ids(lights, search, true);
    Commands { requests: toggle_lights(db, &ids, true), message: String::from_str("Turning matches on!") }
}

/// Switches off every light whose name `search` matches.
pub fn light_off(db: &DB, search: &Pattern, lights: &IdMap<Light>) -> (c: Commands)
    ensures
        requests_view(c.requests@) == light_toggles(*db, selected_ids(lights@, search@, true), false),
        search@.len() == 0 ==> requests_view(c.requests@) == light_toggles(*db, all_ids(lights@), false),
        c.message@ == "Turning matches off!"@,
{
    let ids = select_ids(lights, search, true);
    Commands { requests: toggle_lights(db, &ids, false), message: String::from_str("Turning matches off!") }
}

/// Switches off every light whose name `search` does not match.
pub fn light_off_except(db: &DB, search: &Pattern, lights: &IdMap<Light>) -> (c: Commands)
    ensures
        requests_view(c.requests@) == light_toggles(*db, selected_ids(lights@, search@, false), false),
        search@.len() == 0 ==> c.requests@.len() == 0,
        c.message@ == "Turning matches off!"@,
{
    let ids = select_ids(lights, search, false);
    Commands { requests: toggle_lights(db, &ids, false), message: String::from_str("Turning matches off!") }
}

/// Switches off every light.
pub fn sleep(db: &DB, lights: &IdMap<Light>) -> (c: Commands)
    ensures
        requests_view(c.requests@) == light_toggles(*db, all_ids(lights@), false),
        c.message@ == "Goodnight!"@,
{
    let ids = every_id(lights);
    Commands { requests: toggle_lights(db, &ids, false), message: String::from_str("Goodnight!") }
}

} // verus!

verus! {

/// The address of a light's state determines the light.
proof fn lemma_light_state_uri_injective(db: DB, a: Seq<char>, b: Seq<char>)
    requires
        spec_light_state_uri(db, a) == spec_light_state_uri(db, b),
    ensures
        a == b,
{
    let p = crate::requests::spec_user_uri(db) + "/lights/"@;
    let q = "/state"@;
    let x = p + a + q;
    let y = p + b + q;
    assert(x.len() == y.len());
    assert(a.len() == b.len());
    assert forall|i: int| 0 <= i < a.len() implies a[i] == b[i] by {
        assert(x[p.len() + i] == a[i]);
        assert(y[p.len() + i] == b[i]);
    }
    assert(a =~= b);
}

proof fn lemma_toggles_contain(db: DB, ids: Seq<Seq<char>>, on: bool, id: Seq<char>)
    ensures
        light_toggles(db, ids, on).contains((spec_light_state_uri(db, id), spec_on_body(on)))
            <==> ids.contains(id),
{
    let t = light_toggles(db, ids, on);
    let r = (spec_light_state_uri(db, id), spec_on_body(on));
    if ids.contains(id) {
        let j = choose|j: int| 0 <= j < ids.len() && ids[j] == id;
        assert(t[j] == r);
    }
    if t.contains(r) {
        let j = choose|j: int| 0 <= j < t.len() && t[j] == r;
        lemma_light_state_uri_injective(db, ids[j], id);
        assert(ids[j] == id);
    }
}

/// Switching off the lights a pattern matches and switching off all the
/// others together send exactly the requests that `sleep` sends: as many
/// requests, each of `sleep`'s requests sent by one of the two and none
/// by both.
pub proof fn lemma_off_and_off_except_make_sleep(db: DB, lights: Seq<(Seq<char>, Light)>, pattern: Seq<char>)
    requires
        keys_distinct(lights),
    ensures
        light_toggles(db, selected_ids(lights, pattern, true), false).len() + light_toggles(
            db,
            selected_ids(lights, pattern, false),
            false,
        ).len() == light_toggles(db, all_ids(lights), false).len(),
        forall|r: (Seq<char>, Seq<char>)| #[trigger]
            light_toggles(db, all_ids(lights), false).contains(r) <==> (light_toggles(
                db,
                selected_ids(lights, pattern, true),
                false,
            ).contains(r) || light_toggles(db, selected_ids(lights, pattern, false), false).contains(r)),
        forall|r: (Seq<char>, Seq<char>)|
            !(#[trigger] light_toggles(db, selected_ids(lights, pattern, true), false).contains(r)
                && light_toggles(db, selected_ids(lights, pattern, false), false).contains(r)),
{
    let on_ids = selected_ids(lights, pattern, true);
    let off_ids = selected_ids(lights, pattern, false);
    let every = all_ids(lights);
    lemma_selection_partition(lights, pattern);
    assert forall|k: Seq<char>| #[trigger] every.contains(k) <==> (on_ids.contains(k) || off_ids.contains(k)) by {
        lemma_selected_membership(lights, pattern, true, k);
        lemma_selected_membership(lights, pattern, false, k);
        if on_ids.contains(k) || off_ids.contains(k) {
            let i = choose|i: int| 0 <= i < lights.len() && #[trigger] lights[i].0 == k && regex_is_match(pattern, lights[i].1.spec_name()) == true
                || 0 <= i < lights.len() && lights[i].0 == k && regex_is_match(pattern, lights[i].1.spec_name()) == false;
            assert(every[i] == k);
        }
    }
    assert forall|r: (Seq<char>, Seq<char>)| #[trigger]
        light_toggles(db, every, false).contains(r) <==> (light_toggles(db, on_ids, false).contains(r)
            || light_toggles(db, off_ids, false).contains(r)) by {
        if r.1 == spec_on_body(false) && exists|k: Seq<char>| r.0 == spec_light_state_uri(db, k) {
            let k = choose|k: Seq<char>| r.0 == spec_light_state_uri(db, k);
            lemma_toggles_contain(db, every, false, k);
            lemma_toggles_contain(db, on_ids, false, k);
            lemma_toggles_contain(db, off_ids, false, k);
        } else {
            lemma_toggles_shape(db, every, false, r);
            lemma_toggles_shape(db, on_ids, false, r);
            lemma_toggles_shape(db, off_ids, false, r);
        }
    }
    assert forall|r: (Seq<char>, Seq<char>)|
        !(#[trigger] light_toggles(db, on_ids, false).contains(r) && light_toggles(db, off_ids, false).contains(r)) by {
        if light_toggles(db, on_ids, false).contains(r) && light_toggles(db, off_ids, false).contains(r) {
            lemma_toggles_shape(db, on_ids, false, r);
            let k = choose|k: Seq<char>| r.0 == spec_light_state_uri(db, k);
            lemma_toggles_contain(db, on_ids, false, k);
            lemma_toggles_contain(db, off_ids, false, k);
            lemma_selected_membership(lights, pattern, true, k);
            assert(on_ids.contains(k));
            assert(off_ids.contains(k));
            let i = choose|i: int| 0 <= i < lights.len() && #[trigger] lights[i].0 == k && regex_is_match(pattern, lights[i].1.spec_name()) == true;
            assert(every[i] == k);
            assert(every.contains(k));
        }
    }
}

proof fn lemma_toggles_shape(db: DB, ids: Seq<Seq<char>>, on: bool, r: (Seq<char>, Seq<char>))
    ensures
        light_toggles(db, ids, on).contains(r) ==> r.1 == spec_on_body(on) && exists|k: Seq<char>|
            r.0 == spec_light_state_uri(db, k),
{
    if light_toggles(db, ids, on).contains(r) {
        let j = choose|j: int| 0 <= j < ids.len() && light_toggles(db, ids, on)[j] == r;
        assert(r.0 == spec_light_state_uri(db, ids[j]));
    }
}

/// Switching the matches on and switching them off address the same lights,
/// in the same order; only the body differs.
pub proof fn lemma_on_and_off_address_same_lights(db: DB, lights: Seq<(Seq<char>, Light)>, pattern: Seq<char>)
    ensures
        light_toggles(db, selected_ids(lights, pattern, true), true).len() == light_toggles(
            db,
            selected_ids(lights, pattern, true),
            false,
        ).len(),
        forall|i: int|
            0 <= i < light_toggles(db, selected_ids(lights, pattern, true), true).len() ==> {
                &&& (#[trigger] light_toggles(db, selected_ids(lights, pattern, true), true)[i]).0
                    == light_toggles(db, selected_ids(lights, pattern, true), false)[i].0
                &&& light_toggles(db, selected_ids(lights, pattern, true), true)[i].1 == spec_on_body(true)
                &&& light_toggles(db, selected_ids(lights, pattern, true), false)[i].1 == spec_on_body(false)
            },
{
}

/// Switching off the lights a pattern matches, when it matches every
/// light's name, sends exactly the requests that `sleep` sends.
pub proof fn lemma_match_all_off_is_sleep(db: DB, lights: Seq<(Seq<char>, Light)>, pattern: Seq<char>)
    requires
        forall|i: int| 0 <= i < lights.len() ==> regex_is_match(pattern, #[trigger] lights[i].1.spec_name()),
    ensures
        light_toggles(db, selected_ids(lights, pattern, true), false) == light_toggles(db, all_ids(lights), false),
        light_toggles(db, selected_ids(lights, pattern, false), false).len() == 0,
{
    lemma_match_all_selects_all(lights, pattern);
}

/// Switching lights sends one request per identifier, in order: the i-th
/// goes to the state of the i-th light and carries the on/off body.
pub proof fn lemma_light_toggles_shape(db: DB, ids: Seq<Seq<char>>, on: bool)
    ensures
        light_toggles(db, ids, on).len() == ids.len(),
        forall|i: int|
            0 <= i < ids.len() ==> #[trigger] light_toggles(db, ids, on)[i] == (
                spec_light_state_uri(db, ids[i]),
                spec_on_body(on),
            ),
{
}

} // verus!

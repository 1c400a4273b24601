use vstd::prelude::*;
use crate::colors::Color;
use crate::json::{
    JsonScalar, object_to_json, object_text, members_text, member_text, quoted, bool_text, decimal,
    writes_verbatim, plain_text, text_less,
};
use crate::structs::DB;

verus! {

/// `https://www.meethue.com/api/nupnp`: where the bridges on the local
/// network are listed.
pub open spec fn spec_bridge_discovery_uri() -> Seq<char> {
    "https://www.meethue.com/api/nupnp"@
}

/// Builds the address where the bridges on the local network are listed.
pub fn bridge_discovery_uri() -> (s: String)
    ensures
        s@ == spec_bridge_discovery_uri(),
{
    String::from_str("https://www.meethue.com/api/nupnp")
}

/// A `PUT` request to the bridge: where it goes and the JSON it carries.
#[derive(Clone, Debug)]
pub struct PutRequest {
    pub uri: String,
    pub body: String,
}

/// The address and body of a request.
pub open spec fn request_view(r: PutRequest) -> (Seq<char>, Seq<char>) {
    (r.uri@, r.body@)
}

/// The addresses and bodies of a list of requests.
pub open spec fn requests_view(rs: Seq<PutRequest>) -> Seq<(Seq<char>, Seq<char>)> {
    rs.map_values(|r: PutRequest| request_view(r))
}

// ---------------------------------------------------------------------------
// Addresses
// ---------------------------------------------------------------------------

/// `http://{ip}/api`: where a new user is requested.
pub open spec fn spec_pairing_uri(ip: Seq<char>) -> Seq<char> {
    "http://"@ + ip + "/api"@
}

/// `http://{ip}/api/{username}`: the root of the paired user's API.
pub open spec fn spec_user_uri(db: DB) -> Seq<char> {
    "http://"@ + db.ip@ + "/api/"@ + db.username@
}

/// `http://{ip}/api/{username}/lights`
pub open spec fn spec_lights_uri(db: DB) -> Seq<char> {
    spec_user_uri(db) + "/lights"@
}

/// `http://{ip}/api/{username}/groups`
pub open spec fn spec_groups_uri(db: DB) -> Seq<char> {
    spec_user_uri(db) + "/groups"@
}

/// `http://{ip}/api/{username}/lights/{id}/state`
pub open spec fn spec_light_state_uri(db: DB, id: Seq<char>) -> Seq<char> {
    spec_user_uri(db) + "/lights/"@ + id + "/state"@
}

/// `http://{ip}/api/{username}/groups/{id}/action`
pub open spec fn spec_group_action_uri(db: DB, id: Seq<char>) -> Seq<char> {
    spec_user_uri(db) + "/groups/"@ + id + "/action"@
}

/// Builds `http://{ip}/api`.
pub fn pairing_uri(ip: &str) -> (s: String)
    ensures
        s@ == spec_pairing_uri(ip@),
{
    let mut s = String::from_str("http://");
    s.append(ip);
    s.append("/api");
    s
}

fn user_uri(db: &DB) -> (s: String)
    ensures
        s@ == spec_user_uri(*db),
{
    let mut s = String::from_str("http://");
    s.append(db.ip.as_str());
    s.append("/api/");
    s.append(db.username.as_str());
    s
}

/// Builds the address of the list of lights.
pub fn lights_uri(db: &DB) -> (s: String)
    ensures
        s@ == spec_lights_uri(*db),
{
    let mut s = user_uri(db);
    s.append("/lights");
    s
}

/// Builds the address of the list of groups.
pub fn groups_uri(db: &DB) -> (s: String)
    ensures
        s@ == spec_groups_uri(*db),
{
    let mut s = user_uri(db);
    s.append("/groups");
    s
}

/// Builds the address of a light's state.
pub fn light_state_uri(db: &DB, id: &str) -> (s: String)
    ensures
        s@ == spec_light_state_uri(*db, id@),
{
    let mut s = user_uri(db);
    s.append("/lights/");
    s.append(id);
    s.append("/state");
    s
}

/// Builds the address of a group's action.
pub fn group_action_uri(db: &DB, id: &str) -> (s: String)
    ensures
        s@ == spec_group_action_uri(*db, id@),
{
    let mut s = user_uri(db);
    s.append("/groups/");
    s.append(id);
    s.append("/action");
    s
}

// ---------------------------------------------------------------------------
// Bodies
// ---------------------------------------------------------------------------

/// `{"on":true}` or `{"on":false}`.
pub open spec fn spec_on_body(on: bool) -> Seq<char> {
    seq!['{'] + quoted("on"@) + seq![':'] + bool_text(on) + seq!['}']
}

/// `{"hue":<hue>,"sat":<sat>}`.
pub open spec fn spec_hue_sat_body(hue: u16, sat: u8) -> Seq<char> {
    seq!['{'] + quoted("hue"@) + seq![':'] + decimal(hue as nat) + seq![','] + quoted("sat"@)
        + seq![':'] + decimal(sat as nat) + seq!['}']
}

/// `{"devicetype":"lights cli"}`: the request for a new user.
pub open spec fn spec_pairing_body() -> Seq<char> {
    seq!['{'] + quoted("devicetype"@) + seq![':'] + quoted("lights cli"@) + seq!['}']
}

/// The body that switches a light or group on or off.
pub fn on_body(on: bool) -> (s: String)
    ensures
        s@ == spec_on_body(on),
{
    let mut fields: Vec<(String, JsonScalar)> = Vec::new();
    fields.push((String::from_str("on"), JsonScalar::Bool(on)));
    proof {
        reveal_strlit("on");
        assert(writes_verbatim(fields@));
        assert(members_text(fields@) == member_text(fields@[0].0@, fields@[0].1));
        assert(object_text(fields@) =~= spec_on_body(on));
    }
    object_to_json(&fields)
}

/// The body that sets hue and saturation.
pub fn hue_sat_body(hue: u16, sat: u8) -> (s: String)
    ensures
        s@ == spec_hue_sat_body(hue, sat),
{
    let mut fields: Vec<(String, JsonScalar)> = Vec::new();
    fields.push((String::from_str("hue"), JsonScalar::UInt(hue as u64)));
    fields.push((String::from_str("sat"), JsonScalar::UInt(sat as u64)));
    proof {
        reveal_strlit("hue");
        reveal_strlit("sat");
        let h = "hue"@;
        let t = "sat"@;
        assert(text_less(h, t));
        assert(plain_text(h));
        assert(plain_text(t));
        assert(writes_verbatim(fields@));
        assert(fields@.drop_last() =~= seq![fields@[0]]);
        assert(members_text(fields@.drop_last()) == member_text(fields@[0].0@, fields@[0].1));
        assert(object_text(fields@) =~= spec_hue_sat_body(hue, sat));
    }
    object_to_json(&fields)
}

/// The body that asks the bridge for a new user.
pub fn pairing_body() -> (s: String)
    ensures
        s@ == spec_pairing_body(),
{
    let mut fields: Vec<(String, JsonScalar)> = Vec::new();
    fields.push((String::from_str("devicetype"), JsonScalar::Str(String::from_str("lights cli"))));
    proof {
        reveal_strlit("devicetype");
        reveal_strlit("lights cli");
        assert(plain_text("devicetype"@));
        assert(plain_text("lights cli"@));
        assert(writes_verbatim(fields@));
        assert(members_text(fields@) == member_text(fields@[0].0@, fields@[0].1));
        assert(object_text(fields@) =~= spec_pairing_body());
    }
    object_to_json(&fields)
}

// ---------------------------------------------------------------------------
// Requests
// ---------------------------------------------------------------------------

/// The request that switches light `id` on or off.
pub fn toggle_light(db: &DB, id: &str, on: bool) -> (r: PutRequest)
    ensures
        request_view(r) == (spec_light_state_uri(*db, id@), spec_on_body(on)),
{
    PutRequest { uri: light_state_uri(db, id), body: on_body(on) }
}

/// The request that switches group `id` on or off.
pub fn toggle_group(db: &DB, id: &str, on: bool) -> (r: PutRequest)
    ensures
        request_view(r) == (spec_group_action_uri(*db, id@), spec_on_body(on)),
{
    PutRequest { uri: group_action_uri(db, id), body: on_body(on) }
}

/// The request that sets group `id` to `color`.
pub fn set_group_color(db: &DB, id: &str, color: Color) -> (r: PutRequest)
    ensures
        request_view(r) == (
            spec_group_action_uri(*db, id@),
            spec_hue_sat_body(color.spec_value().0, color.spec_value().1),
        ),
{
    let (hue, sat) = color.value();
    PutRequest { uri: group_action_uri(db, id), body: hue_sat_body(hue, sat) }
}

} // verus!

verus! {

/// What a command asks of the bridge: the requests to send, in order, and
/// the line to report once they have been sent.
#[derive(Debug)]
pub struct Commands {
    pub requests: Vec<PutRequest>,
    pub message: String,
}

} // verus!

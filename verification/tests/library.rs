use lights::colors::Color;
use lights::group_actions::{group_color, group_off, group_off_except, group_on, list_groups};
use lights::idmap::IdMap;
use lights::json::{object_to_json, parse_json, JsonScalar, JsonValue};
use lights::light_actions::{light_off, light_off_except, light_on, list_lights, sleep};
use lights::pattern::{Pattern, PatternError};
use lights::requests::{
    bridge_discovery_uri, group_action_uri, groups_uri, hue_sat_body, light_state_uri, lights_uri,
    on_body, pairing_body, pairing_uri, set_group_color, toggle_group, toggle_light, Commands,
};
use lights::structs::{Group, GroupAction, GroupState, Light, LightState, DB};
use lights::utils::{auto_pair_hue, pair_hue, trim_line_end, Notice, PairAction, PairEvent, Waiting};

fn db() -> DB {
    DB { ip: "10.0.0.2".to_string(), username: "abc".to_string() }
}

fn light(name: &str) -> Light {
    Light {
        state: LightState {
            on: false,
            bri: 1,
            hue: 0,
            sat: 0,
            xy: [0.5f64.to_bits(), 0.25f64.to_bits()],
            ct: 0,
            alert: "none".to_string(),
            effect: String::new(),
            colormode: String::new(),
            reachable: true,
        },
        light_type: "Extended color light".to_string(),
        name: name.to_string(),
        modelid: "LCT001".to_string(),
        manufacturername: "Philips".to_string(),
        uniqueid: "00:17".to_string(),
        swversion: "1".to_string(),
        swconfigid: String::new(),
        productid: String::new(),
    }
}

fn group(name: &str) -> Group {
    Group {
        name: name.to_string(),
        lights: vec!["1".to_string()],
        group_type: "Room".to_string(),
        state: GroupState { all_on: false, any_on: false },
        recycle: false,
        class: "Living room".to_string(),
        action: GroupAction {
            on: false,
            bri: 1,
            hue: 0,
            sat: 0,
            effect: String::new(),
            xy: [0, 0],
            ct: 0,
            alert: "none".to_string(),
            colormode: String::new(),
        },
    }
}

fn lights_map() -> IdMap<Light> {
    let mut m = IdMap::new();
    m.insert("1".to_string(), light("Kitchen"));
    m.insert("2".to_string(), light("Bedroom"));
    m.insert("3".to_string(), light("Kitchen strip"));
    m
}

fn groups_map() -> IdMap<Group> {
    let mut m = IdMap::new();
    m.insert("4".to_string(), group("Living"));
    m.insert("7".to_string(), group("Office"));
    m
}

fn uris(c: &Commands) -> Vec<String> {
    c.requests.iter().map(|r| r.uri.clone()).collect()
}

#[test]
fn color_values() {
    assert_eq!(Color::BLUE.value(), (46920, 254));
    assert_eq!(Color::CYAN.value(), (32767, 254));
    assert_eq!(Color::GREEN.value(), (25500, 254));
    assert_eq!(Color::RED.value(), (0, 254));
}

#[test]
fn empty_db_knows_nothing() {
    let d = DB::empty();
    assert_eq!(d.ip, "");
    assert_eq!(d.username, "");
}

#[test]
fn uris_follow_the_hue_api() {
    let d = db();
    assert_eq!(pairing_uri("10.0.0.2"), "http://10.0.0.2/api");
    assert_eq!(lights_uri(&d), "http://10.0.0.2/api/abc/lights");
    assert_eq!(groups_uri(&d), "http://10.0.0.2/api/abc/groups");
    assert_eq!(light_state_uri(&d, "3"), "http://10.0.0.2/api/abc/lights/3/state");
    assert_eq!(group_action_uri(&d, "4"), "http://10.0.0.2/api/abc/groups/4/action");
    assert_eq!(bridge_discovery_uri(), "https://www.meethue.com/api/nupnp");
}

#[test]
fn bodies_are_compact_json() {
    assert_eq!(on_body(true), "{\"on\":true}");
    assert_eq!(on_body(false), "{\"on\":false}");
    assert_eq!(hue_sat_body(32767, 254), "{\"hue\":32767,\"sat\":254}");
    assert_eq!(hue_sat_body(0, 0), "{\"hue\":0,\"sat\":0}");
    assert_eq!(pairing_body(), "{\"devicetype\":\"lights cli\"}");
}

#[test]
fn object_to_json_sorts_and_escapes() {
    let fields = vec![
        ("b".to_string(), JsonScalar::UInt(1)),
        ("a".to_string(), JsonScalar::Str("x\"y".to_string())),
    ];
    assert_eq!(object_to_json(&fields), "{\"a\":\"x\\\"y\",\"b\":1}");
}

#[test]
fn single_requests() {
    let d = db();
    let t = toggle_light(&d, "2", true);
    assert_eq!(t.uri, "http://10.0.0.2/api/abc/lights/2/state");
    assert_eq!(t.body, "{\"on\":true}");
    let g = toggle_group(&d, "4", false);
    assert_eq!(g.uri, "http://10.0.0.2/api/abc/groups/4/action");
    assert_eq!(g.body, "{\"on\":false}");
    let c = set_group_color(&d, "4", Color::BLUE);
    assert_eq!(c.uri, "http://10.0.0.2/api/abc/groups/4/action");
    assert_eq!(c.body, "{\"hue\":46920,\"sat\":254}");
}

#[test]
fn idmap_insert_and_get() {
    let mut m: IdMap<u32> = IdMap::new();
    assert_eq!(m.len(), 0);
    m.insert("a".to_string(), 1);
    m.insert("b".to_string(), 2);
    m.insert("a".to_string(), 3);
    assert_eq!(m.len(), 2);
    assert_eq!(m.get(&"a".to_string()), Some(&3));
    assert_eq!(m.get(&"b".to_string()), Some(&2));
    assert_eq!(m.get(&"c".to_string()), None);
    let (id, v) = m.entry(0);
    assert_eq!((id.as_str(), *v), ("a", 3));
    let (id, v) = m.entry(1);
    assert_eq!((id.as_str(), *v), ("b", 2));
}

#[test]
fn invalid_pattern_is_refused() {
    assert!(matches!(Pattern::new("(unclosed"), Err(PatternError::Syntax(_))));
    let p = Pattern::new("^Kit").unwrap();
    assert!(p.is_match("Kitchen"));
    assert!(!p.is_match("Bedroom"));
}

#[test]
fn light_on_switches_matches_on() {
    let p = Pattern::new("Kitchen").unwrap();
    let c = light_on(&db(), &p, &lights_map());
    assert_eq!(
        uris(&c),
        vec![
            "http://10.0.0.2/api/abc/lights/1/state".to_string(),
            "http://10.0.0.2/api/abc/lights/3/state".to_string(),
        ]
    );
    assert!(c.requests.iter().all(|r| r.body == "{\"on\":true}"));
    assert_eq!(c.message, "Turning matches on!");
}

#[test]
fn light_off_and_except_split_the_lights() {
    let p = Pattern::new("Kitchen").unwrap();
    let off = light_off(&db(), &p, &lights_map());
    let except = light_off_except(&db(), &p, &lights_map());
    assert_eq!(uris(&off).len(), 2);
    assert_eq!(uris(&except), vec!["http://10.0.0.2/api/abc/lights/2/state".to_string()]);
    assert!(off.requests.iter().chain(except.requests.iter()).all(|r| r.body == "{\"on\":false}"));
    assert_eq!(off.message, "Turning matches off!");
    assert_eq!(except.message, "Turning matches off!");
    let all = sleep(&db(), &lights_map());
    let mut joined = uris(&off);
    joined.extend(uris(&except));
    joined.sort();
    let mut every = uris(&all);
    every.sort();
    assert_eq!(joined, every);
}

#[test]
fn sleep_switches_every_light_off() {
    let c = sleep(&db(), &lights_map());
    assert_eq!(c.requests.len(), 3);
    assert!(c.requests.iter().all(|r| r.body == "{\"on\":false}"));
    assert_eq!(c.message, "Goodnight!");
}

#[test]
fn pattern_matching_nothing_sends_nothing() {
    let p = Pattern::new("Garage").unwrap();
    let c = light_on(&db(), &p, &lights_map());
    assert!(c.requests.is_empty());
    assert_eq!(c.message, "Turning matches on!");
}

#[test]
fn listing_names() {
    assert_eq!(list_lights(&lights_map()), "Kitchen\nBedroom\nKitchen strip\n");
    assert_eq!(list_groups(&groups_map()), "Living\nOffice\n");
    assert_eq!(list_lights(&IdMap::new()), "");
}

#[test]
fn group_commands() {
    let p = Pattern::new("Off").unwrap();
    let on = group_on(&db(), &p, &groups_map());
    assert_eq!(uris(&on), vec!["http://10.0.0.2/api/abc/groups/7/action".to_string()]);
    assert_eq!(on.requests[0].body, "{\"on\":true}");
    assert_eq!(on.message, "Turning matches on!");
    let off = group_off(&db(), &p, &groups_map());
    assert_eq!(off.requests[0].body, "{\"on\":false}");
    assert_eq!(off.message, "Turning matches off!");
    let except = group_off_except(&db(), &p, &groups_map());
    assert_eq!(uris(&except), vec!["http://10.0.0.2/api/abc/groups/4/action".to_string()]);
    let color = group_color(&db(), &p, &groups_map(), Color::CYAN);
    assert_eq!(color.requests[0].body, "{\"hue\":32767,\"sat\":254}");
    let red = group_color(&db(), &p, &groups_map(), Color::RED);
    assert_eq!(uris(&red), vec!["http://10.0.0.2/api/abc/groups/7/action".to_string()]);
    assert_eq!(red.requests[0].body, "{\"hue\":0,\"sat\":254}");
    assert_eq!(color.message, "Changing matches to color!");
}

#[test]
fn trimming_typed_lines() {
    assert_eq!(trim_line_end("192.168.1.2\r\n"), "192.168.1.2");
    assert_eq!(trim_line_end("abc\n\n"), "abc");
    assert_eq!(trim_line_end("a\nb"), "a\nb");
    assert_eq!(trim_line_end(""), "");
    assert_eq!(trim_line_end("\r\n"), "");
}

fn obj(members: Vec<(&str, JsonValue)>) -> JsonValue {
    JsonValue::Object(members.into_iter().map(|(k, v)| (k.to_string(), v)).collect())
}

#[test]
fn json_lookup() {
    let v = JsonValue::Array(vec![obj(vec![("a", JsonValue::Str("x".to_string())), ("b", JsonValue::Null)])]);
    assert!(matches!(v.at(0), Some(JsonValue::Object(_))));
    assert!(v.at(1).is_none());
    let first = v.at(0).unwrap();
    assert_eq!(first.get("a").unwrap().as_str().unwrap(), "x");
    assert!(first.get("b").unwrap().is_null());
    assert!(first.get("c").is_none());
    assert!(JsonValue::Null.at(0).is_none());
}

#[test]
fn pairing_when_already_configured() {
    let (p, step) = pair_hue(db());
    assert!(step.notices.is_empty());
    assert!(matches!(step.action, PairAction::Finish { ref message } if message == "Already configured"));
    assert!(matches!(p.waiting, Waiting::Nothing));
}

#[test]
fn pairing_asks_for_the_address() {
    let (p, step) = pair_hue(DB::empty());
    assert!(matches!(step.action, PairAction::PromptIp { ref prompt } if prompt == "Enter Hue Bridge IP: "));
    let (p, step) = p.resume(PairEvent::IpEntered(Some("10.0.0.9\n".to_string())));
    assert_eq!(step.notices.len(), 1);
    assert!(matches!(step.notices[0], Notice::SaveDb));
    match step.action {
        PairAction::PostPairing { uri, body } => {
            assert_eq!(uri, "http://10.0.0.9/api");
            assert_eq!(body, "{\"devicetype\":\"lights cli\"}");
        }
        _ => panic!("expected a pairing request"),
    }
    // The typed address is used for the request only; the database keeps none.
    assert_eq!(p.db.ip, "");
    let reply = r#"[{"success":{"username":"newuser"}}]"#.to_string();
    let (p, step) = p.resume(PairEvent::PairReply(reply));
    assert_eq!(p.db.username, "newuser");
    assert!(matches!(step.notices[0], Notice::SaveDb));
    assert!(matches!(step.action, PairAction::Finish { ref message } if message == "Pairing Successful!"));
}

#[test]
fn pairing_reply_with_error() {
    let d = DB { ip: "10.0.0.2".to_string(), username: String::new() };
    let (p, _) = pair_hue(d);
    let reply = r#"[{"error":{"type":101,"address":"","description":"link button not pressed"}}]"#.to_string();
    let (p, step) = p.resume(PairEvent::PairReply(reply));
    assert!(step.notices.is_empty());
    assert_eq!(p.db.username, "");
    assert!(matches!(step.action, PairAction::Finish { ref message }
        if message == "Press the pairing button on Hue Bridge and run init again..."));
}

#[test]
fn pairing_reply_without_user() {
    let d = DB { ip: "10.0.0.2".to_string(), username: String::new() };
    let (p, _) = pair_hue(d);
    let (_, step) = p.resume(PairEvent::PairReply("[]".to_string()));
    assert!(matches!(step.action, PairAction::Finish { ref message } if message == "Seems that IP was wrong..."));
}

#[test]
fn auto_pairing_discovers_the_bridge() {
    let (p, step) = auto_pair_hue(DB::empty());
    assert!(matches!(step.action, PairAction::FetchBridgeList { ref uri } if uri == "https://www.meethue.com/api/nupnp"));
    let list = r#"[{"id":"001788","internalipaddress":"192.168.1.20"}]"#.to_string();
    let (p, step) = p.resume(PairEvent::BridgeList(list));
    assert_eq!(p.db.ip, "192.168.1.20");
    assert_eq!(step.notices.len(), 2);
    assert!(matches!(step.notices[0], Notice::Print(ref m) if m == "Found Hue Bridge: 192.168.1.20"));
    assert!(matches!(step.notices[1], Notice::SaveDb));
    assert!(matches!(step.action, PairAction::PostPairing { ref uri, .. } if uri == "http://192.168.1.20/api"));
}

#[test]
fn auto_pairing_without_bridge_asks_for_address() {
    let (p, _) = auto_pair_hue(DB::empty());
    let (p, step) = p.resume(PairEvent::BridgeList("[]".to_string()));
    assert_eq!(p.db.ip, "");
    assert!(matches!(step.notices[0], Notice::Print(ref m) if m == "Failed to auto-locate Hue bridge..."));
    assert!(matches!(step.action, PairAction::PromptIp { .. }));
}

#[test]
fn auto_pairing_with_known_address_skips_discovery() {
    let d = DB { ip: "10.0.0.2".to_string(), username: String::new() };
    let (_, step) = auto_pair_hue(d);
    assert!(matches!(step.action, PairAction::PostPairing { ref uri, .. } if uri == "http://10.0.0.2/api"));
}

#[test]
fn oversized_pattern_is_refused() {
    assert!(matches!(Pattern::new("(?:\\w{1000}){1000}"), Err(PatternError::CompiledTooBig(_))));
}

#[test]
fn trimming_twice_changes_nothing() {
    for line in ["abc\r\n", "\n", "x\ny\r", ""] {
        let once = trim_line_end(line);
        assert_eq!(trim_line_end(&once), once);
        assert!(line.starts_with(once.as_str()));
    }
}

#[test]
fn every_colour_is_fully_saturated() {
    for c in [Color::BLUE, Color::CYAN, Color::GREEN, Color::RED] {
        assert_eq!(c.value().1, 254);
    }
}

#[test]
fn colour_names() {
    assert_eq!(Color::from_name("blue"), Some(Color::BLUE));
    assert_eq!(Color::from_name("cyan"), Some(Color::CYAN));
    assert_eq!(Color::from_name("green"), Some(Color::GREEN));
    assert_eq!(Color::from_name("red"), Some(Color::RED));
    assert_eq!(Color::from_name("purple"), None);
    assert_eq!(Color::from_name("Red"), None);
}

#[test]
fn empty_pattern_matches_every_light() {
    let p = Pattern::new("").unwrap();
    let off = light_off(&db(), &p, &lights_map());
    let all = sleep(&db(), &lights_map());
    assert_eq!(uris(&off), uris(&all));
    assert!(off.requests.iter().all(|r| r.body == "{\"on\":false}"));
    assert!(light_off_except(&db(), &p, &lights_map()).requests.is_empty());
    assert_eq!(uris(&group_on(&db(), &p, &groups_map())).len(), 2);
}

#[test]
fn pairing_checks_the_answer() {
    let (p, _) = auto_pair_hue(DB::empty());
    assert!(p.expects(&PairEvent::BridgeList(String::new())));
    assert!(!p.expects(&PairEvent::IpEntered(None)));
    assert!(!p.expects(&PairEvent::PairReply(String::new())));
    let (done, _) = pair_hue(db());
    assert!(!done.expects(&PairEvent::BridgeList(String::new())));
}

#[test]
fn parsing_json_text() {
    let v = parse_json(r#"[{"a":"x","b":null,"n":12.5}]"#).unwrap();
    let first = v.at(0).unwrap();
    assert_eq!(first.get("a").unwrap().as_str().unwrap(), "x");
    assert!(first.get("b").unwrap().is_null());
    assert!(matches!(first.get("n"), Some(JsonValue::Number(ref t)) if t == "12.5"));
    assert!(parse_json("not json").is_none());
    assert!(parse_json("").is_none());
}

#[test]
fn unreadable_answers_stop_pairing() {
    let (p, _) = auto_pair_hue(DB::empty());
    let (p, step) = p.resume(PairEvent::BridgeList("<html>".to_string()));
    assert!(step.notices.is_empty());
    assert!(matches!(step.action, PairAction::BadReply));
    assert!(matches!(p.waiting, Waiting::Nothing));
    assert_eq!(p.db.ip, "");
    let d = DB { ip: "10.0.0.2".to_string(), username: String::new() };
    let (p, _) = pair_hue(d);
    let (p, step) = p.resume(PairEvent::PairReply("oops".to_string()));
    assert!(matches!(step.action, PairAction::BadReply));
    assert_eq!(p.db.username, "");
}

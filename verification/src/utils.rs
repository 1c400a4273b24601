use vstd::prelude::*;
use crate::json::{JsonValue, json_at, json_get, json_str, json_parse, found, parse_json};
use crate::requests::{
    bridge_discovery_uri, pairing_body, pairing_uri, spec_bridge_discovery_uri, spec_pairing_body,
    spec_pairing_uri,
};
use crate::structs::DB;

verus! {

// ---------------------------------------------------------------------------
// Reading a line typed at the terminal
// ---------------------------------------------------------------------------

/// A line break character.
pub open spec fn is_line_break(c: char) -> bool {
    c == '\n' || c == '\r'
}

/// `s` without the line breaks it ends with.
pub open spec fn trim_line_breaks(s: Seq<char>) -> Seq<char>
    decreases s.len(),
{
    if s.len() > 0 && is_line_break(s.last()) {
        trim_line_breaks(s.drop_last())
    } else {
        s
    }
}

/// The line as typed: `line` without the `\n` and `\r` characters it ends
/// with.
pub fn trim_line_end(line: &str) -> (s: String)
    ensures
        s@ == trim_line_breaks(line@),
{
    let n = line.unicode_len();
    let mut k: usize = n;
    proof {
        assert(line@.take(n as int) =~= line@);
    }
    while k > 0
        invariant
            n == line@.len(),
            k <= n,
            trim_line_breaks(line@) == trim_line_breaks(line@.take(k as int)),
        ensures
            k <= n,
            trim_line_breaks(line@) == trim_line_breaks(line@.take(k as int)),
            k == 0 || !is_line_break(line@[k - 1]),
        decreases k,
    {
        let c = line.get_char(k - 1);
        if c != '\n' && c != '\r' {
            break;
        }
        proof {
            assert(line@.take(k as int).drop_last() =~= line@.take(k - 1));
        }
        k = k - 1;
    }
    proof {
        if k > 0 {
            assert(line@.take(k as int).last() == line@[k - 1]);
        }
    }
    String::from_str(line.substring_char(0, k))
}

// ---------------------------------------------------------------------------
// Pairing with the bridge
// ---------------------------------------------------------------------------

/// What the pairing conversation waits for.
#[derive(Debug)]
pub enum Waiting {
    /// The list of bridges found on the network.
    BridgeList,
    /// The bridge's address, typed by the user.
    IpInput,
    /// The bridge's answer to the request for a user sent to `ip`.
    PairReply { ip: String },
    /// Nothing: the conversation is over.
    Nothing,
}

/// The pairing conversation: what is known so far and what it waits for.
#[derive(Debug)]
pub struct Pairing {
    pub db: DB,
    pub waiting: Waiting,
}

/// An answer to the action a step asked for.
#[derive(Debug)]
pub enum PairEvent {
    /// The text of the list of bridges found on the network.
    BridgeList(String),
    /// The line the user typed, or `None` when it could not be read.
    IpEntered(Option<String>),
    /// The text of the bridge's answer to the request for a user.
    PairReply(String),
}

/// Something to do on the way that needs no answer.
#[derive(Debug)]
pub enum Notice {
    /// Print this line.
    Print(String),
    /// Save the database.
    SaveDb,
}

/// What the conversation needs next.
#[derive(Debug)]
pub enum PairAction {
    /// Fetch the list of bridges from `uri`; answer with
    /// [`PairEvent::BridgeList`].
    FetchBridgeList { uri: String },
    /// Show `prompt` and read a line; answer with [`PairEvent::IpEntered`].
    PromptIp { prompt: String },
    /// Post `body` as JSON to `uri`; answer with [`PairEvent::PairReply`].
    PostPairing { uri: String, body: String },
    /// The conversation is over; `message` is its outcome.
    Finish { message: String },
    /// The answer to the last fetch or post was not JSON; the conversation
    /// stops.
    BadReply,
}

/// One step of the conversation: notices to carry out in order, then the
/// action.
#[derive(Debug)]
pub struct PairStep {
    pub notices: Vec<Notice>,
    pub action: PairAction,
}

/// Whether `event` answers what the conversation waits for.
pub open spec fn answers(waiting: Waiting, event: PairEvent) -> bool {
    match waiting {
        Waiting::BridgeList => event is BridgeList,
        Waiting::IpInput => event is IpEntered,
        Waiting::PairReply { .. } => event is PairReply,
        Waiting::Nothing => false,
    }
}

/// `v[0][key]`, `Null` when absent.
pub open spec fn first_member(v: JsonValue, key: Seq<char>) -> JsonValue {
    json_get(json_at(v, 0), key)
}

/// The address the discovery list reports, `v[0]["internalipaddress"]`.
pub open spec fn reported_address(v: JsonValue) -> JsonValue {
    first_member(v, "internalipaddress"@)
}

/// The bridge's address after discovery: unchanged when the list reports
/// none, otherwise the reported text (empty when it is not a string).
pub open spec fn discovered_ip(v: JsonValue, ip: Seq<char>) -> Seq<char> {
    if reported_address(v) is Null {
        ip
    } else {
        match json_str(reported_address(v)) {
            Some(s) => s,
            None => Seq::empty(),
        }
    }
}

/// The line printed after discovery.
pub open spec fn discovery_message(v: JsonValue, ip: Seq<char>) -> Seq<char> {
    if reported_address(v) is Null {
        "Failed to auto-locate Hue bridge..."@
    } else {
        "Found Hue Bridge: "@ + discovered_ip(v, ip)
    }
}

/// Whether the bridge refused to pair: `v[0]["error"]` is present.
pub open spec fn reply_is_error(v: JsonValue) -> bool {
    !(first_member(v, "error"@) is Null)
}

/// `v[0]["success"]["username"]`, `Null` when absent.
pub open spec fn reply_username(v: JsonValue) -> JsonValue {
    json_get(first_member(v, "success"@), "username"@)
}

/// The step that follows once the address `ip` is settled: nothing to ask
/// when a user is already configured, else the request for a user.
pub open spec fn proceeds_with_ip(db: DB, ip: Seq<char>, p: Pairing, a: PairAction) -> bool {
    &&& p.db == db
    &&& if db.username@.len() > 0 {
        &&& a matches PairAction::Finish { message } && message@ == "Already configured"@
        &&& p.waiting is Nothing
    } else {
        &&& a matches PairAction::PostPairing { uri, body } && uri@ == spec_pairing_uri(ip)
            && body@ == spec_pairing_body()
        &&& p.waiting matches Waiting::PairReply { ip: w } && w@ == ip
    }
}

/// The step that starts pairing with the database `db`: ask for the
/// address when it is unknown, else proceed with it.
pub open spec fn starts_pairing(db: DB, p: Pairing, a: PairAction) -> bool {
    if db.ip@.len() == 0 {
        &&& p.db == db
        &&& a matches PairAction::PromptIp { prompt } && prompt@ == "Enter Hue Bridge IP: "@
        &&& p.waiting is IpInput
    } else {
        proceeds_with_ip(db, db.ip@, p, a)
    }
}

fn proceed_with_ip(db: DB, ip: String) -> (r: (Pairing, PairAction))
    ensures
        proceeds_with_ip(db, ip@, r.0, r.1),
{
    if !db.username.as_str().is_empty() {
        let message = String::from_str("Already configured");
        (Pairing { db, waiting: Waiting::Nothing }, PairAction::Finish { message })
    } else {
        let uri = pairing_uri(ip.as_str());
        let body = pairing_body();
        (Pairing { db, waiting: Waiting::PairReply { ip } }, PairAction::PostPairing { uri, body })
    }
}

fn start_pairing(db: DB) -> (r: (Pairing, PairAction))
    ensures
        starts_pairing(db, r.0, r.1),
{
    if db.ip.as_str().is_empty() {
        let prompt = String::from_str("Enter Hue Bridge IP: ");
        (Pairing { db, waiting: Waiting::IpInput }, PairAction::PromptIp { prompt })
    } else {
        let ip = db.ip.clone();
        proceed_with_ip(db, ip)
    }
}

/// Pairs with the bridge whose address the database holds, or asks for the
/// address when it holds none. Nothing is requested when a user name is
/// already configured.
pub fn pair_hue(db: DB) -> (r: (Pairing, PairStep))
    ensures
        r.1.notices@.len() == 0,
        starts_pairing(db, r.0, r.1.action),
{
    let (p, action) = start_pairing(db);
    (p, PairStep { notices: Vec::new(), action })
}

/// Pairs with the bridge, first looking it up on the network when the
/// database holds no address.
pub fn auto_pair_hue(db: DB) -> (r: (Pairing, PairStep))
    ensures
        r.1.notices@.len() == 0,
        db.ip@.len() == 0 ==> {
            &&& r.0.db == db
            &&& r.0.waiting is BridgeList
            &&& r.1.action matches PairAction::FetchBridgeList { uri } && uri@
                == spec_bridge_discovery_uri()
        },
        db.ip@.len() > 0 ==> starts_pairing(db, r.0, r.1.action),
{
    if db.ip.as_str().is_empty() {
        let uri = bridge_discovery_uri();
        (
            Pairing { db, waiting: Waiting::BridgeList },
            PairStep { notices: Vec::new(), action: PairAction::FetchBridgeList { uri } },
        )
    } else {
        pair_hue(db)
    }
}

/// `v[0][key]`, `None` standing for `Null`.
fn first_member_of<'a>(v: &'a JsonValue, key: &str) -> (r: Option<&'a JsonValue>)
    ensures
        found(r) == first_member(*v, key@),
{
    match v.at(0) {
        Some(first) => first.get(key),
        None => None,
    }
}

/// The text of a JSON value when it is a string, else the empty text.
fn str_or_empty(v: &JsonValue) -> (s: String)
    ensures
        s@ == match json_str(*v) {
            Some(t) => t,
            None => Seq::empty(),
        },
{
    match v.as_str() {
        Some(t) => t.clone(),
        None => String::new(),
    }
}

/// The step after the list of bridges `v` arrived: the address is updated
/// as discovery reports it, the outcome printed, the database saved, and
/// pairing starts with the updated database.
pub open spec fn after_bridge_list(old: DB, v: JsonValue, r: (Pairing, PairStep)) -> bool {
    let db = DB { ip: r.0.db.ip, username: old.username };
    &&& r.0.db.ip@ == discovered_ip(v, old.ip@)
    &&& r.0.db.username == old.username
    &&& r.1.notices@.len() == 2
    &&& r.1.notices@[0] matches Notice::Print(m) && m@ == discovery_message(v, old.ip@)
    &&& r.1.notices@[1] is SaveDb
    &&& starts_pairing(db, r.0, r.1.action)
}

/// The step after the bridge answered the request for a user with `v`.
pub open spec fn after_pair_reply(old: DB, v: JsonValue, r: (Pairing, PairStep)) -> bool {
    &&& r.0.waiting is Nothing
    &&& r.0.db.ip == old.ip
    &&& if reply_is_error(v) {
        &&& r.0.db.username == old.username
        &&& r.1.notices@.len() == 0
        &&& r.1.action matches PairAction::Finish { message } && message@
            == "Press the pairing button on Hue Bridge and run init again..."@
    } else if !(reply_username(v) is Null) {
        &&& r.0.db.username@ == match json_str(reply_username(v)) {
            Some(t) => t,
            None => Seq::empty(),
        }
        &&& r.1.notices@.len() == 1
        &&& r.1.notices@[0] is SaveDb
        &&& r.1.action matches PairAction::Finish { message } && message@ == "Pairing Successful!"@
    } else {
        &&& r.0.db.username == old.username
        &&& r.1.notices@.len() == 0
        &&& r.1.action matches PairAction::Finish { message } && message@
            == "Seems that IP was wrong..."@
    }
}

/// The step after an answer that is not JSON: nothing changes and the
/// conversation stops.
pub open spec fn after_bad_reply(old: DB, r: (Pairing, PairStep)) -> bool {
    &&& r.0.db == old
    &&& r.0.waiting is Nothing
    &&& r.1.notices@.len() == 0
    &&& r.1.action is BadReply
}

fn on_bridge_list(db: DB, v: &JsonValue) -> (r: (Pairing, PairStep))
    ensures
        after_bridge_list(db, *v, r),
{
    let ghost old = db;
    let mut db = db;
    let mut notices: Vec<Notice> = Vec::new();
    match first_member_of(v, "internalipaddress") {
        Some(addr) if !addr.is_null() => {
            db.ip = str_or_empty(addr);
            let mut m = String::from_str("Found Hue Bridge: ");
            m.append(db.ip.as_str());
            notices.push(Notice::Print(m));
        },
        _ => {
            notices.push(Notice::Print(String::from_str("Failed to auto-locate Hue bridge...")));
        },
    }
    notices.push(Notice::SaveDb);
    let (p, action) = start_pairing(db);
    (p, PairStep { notices, action })
}

fn on_pair_reply(db: DB, v: &JsonValue) -> (r: (Pairing, PairStep))
    ensures
        after_pair_reply(db, *v, r),
{
    let mut db = db;
    let mut notices: Vec<Notice> = Vec::new();
    let is_error = match first_member_of(v, "error") {
        Some(e) => !e.is_null(),
        None => false,
    };
    let message = if is_error {
        String::from_str("Press the pairing button on Hue Bridge and run init again...")
    } else {
        let username = match first_member_of(v, "success") {
            Some(success) => success.get("username"),
            None => None,
        };
        match username {
            Some(u) if !u.is_null() => {
                db.username = str_or_empty(u);
                notices.push(Notice::SaveDb);
                String::from_str("Pairing Successful!")
            },
            _ => String::from_str("Seems that IP was wrong..."),
        }
    };
    (Pairing { db, waiting: Waiting::Nothing }, PairStep { notices, action: PairAction::Finish { message } })
}

fn on_bad_reply(db: DB) -> (r: (Pairing, PairStep))
    ensures
        after_bad_reply(db, r),
{
    (Pairing { db, waiting: Waiting::Nothing }, PairStep { notices: Vec::new(), action: PairAction::BadReply })
}

impl Pairing {
    /// Whether `event` answers what the conversation waits for, so that it
    /// may be handed to [`Pairing::resume`].
    pub fn expects(&self, event: &PairEvent) -> (b: bool)
        ensures
            b == answers(self.waiting, *event),
    {
        match (&self.waiting, event) {
            (Waiting::BridgeList, PairEvent::BridgeList(_)) => true,
            (Waiting::IpInput, PairEvent::IpEntered(_)) => true,
            (Waiting::PairReply { .. }, PairEvent::PairReply(_)) => true,
            _ => false,
        }
    }

    /// Carries the conversation on with the answer to its last action. An
    /// answer from the network is read as JSON first; one that is not JSON
    /// stops the conversation.
    pub fn resume(self, event: PairEvent) -> (r: (Pairing, PairStep))
        requires
            answers(self.waiting, event),
        ensures
            match (self.waiting, event) {
                (Waiting::BridgeList, PairEvent::BridgeList(text)) => match json_parse(text@) {
                    Some(v) => after_bridge_list(self.db, v, r),
                    None => after_bad_reply(self.db, r),
                },
                (Waiting::IpInput, PairEvent::IpEntered(line)) => {
                    let ip = match line {
                        Some(l) => trim_line_breaks(l@),
                        None => Seq::empty(),
                    };
                    &&& r.1.notices@.len() == 1
                    &&& r.1.notices@[0] is SaveDb
                    &&& proceeds_with_ip(self.db, ip, r.0, r.1.action)
                },
                (Waiting::PairReply { .. }, PairEvent::PairReply(text)) => match json_parse(text@) {
                    Some(v) => after_pair_reply(self.db, v, r),
                    None => after_bad_reply(self.db, r),
                },
                _ => false,
            },
    {
        let Pairing { db, waiting } = self;
        match (waiting, event) {
            (Waiting::BridgeList, PairEvent::BridgeList(text)) => {
                match parse_json(text.as_str()) {
                    Some(v) => on_bridge_list(db, &v),
                    None => on_bad_reply(db),
                }
            },
            (Waiting::IpInput, PairEvent::IpEntered(line)) => {
                let ip = match line {
                    Some(l) => trim_line_end(l.as_str()),
                    None => String::new(),
                };
                let mut notices: Vec<Notice> = Vec::new();
                notices.push(Notice::SaveDb);
                let (p, action) = proceed_with_ip(db, ip);
                (p, PairStep { notices, action })
            },
            (Waiting::PairReply { .. }, PairEvent::PairReply(text)) => {
                match parse_json(text.as_str()) {
                    Some(v) => on_pair_reply(db, &v),
                    None => on_bad_reply(db),
                }
            },
            _ => {
                proof {
                    assert(false);
                }
                on_bad_reply(DB::empty())
            },
        }
    }
}

/// Trimming keeps a prefix of the line, removes only line breaks, leaves no
/// line break at the end, and trimming again changes nothing.
pub proof fn lemma_trim_line_breaks(s: Seq<char>)
    ensures
        trim_line_breaks(s).len() <= s.len(),
        trim_line_breaks(s) == s.take(trim_line_breaks(s).len() as int),
        forall|i: int| trim_line_breaks(s).len() <= i < s.len() ==> is_line_break(#[trigger] s[i]),
        trim_line_breaks(s).len() == 0 || !is_line_break(trim_line_breaks(s).last()),
        trim_line_breaks(trim_line_breaks(s)) == trim_line_breaks(s),
    decreases s.len(),
{
    if s.len() > 0 && is_line_break(s.last()) {
        let t = s.drop_last();
        lemma_trim_line_breaks(t);
        let n = trim_line_breaks(t).len() as int;
        assert(t.take(n) =~= s.take(n));
        assert forall|i: int| n <= i < s.len() implies is_line_break(#[trigger] s[i]) by {
            if i < t.len() {
                assert(s[i] == t[i]);
            }
        }
    } else {
        assert(s.take(s.len() as int) =~= s);
    }
}

/// A bridge on which a user is already configured is never asked for a new
/// one: once the address is settled, the conversation ends with "Already
/// configured" and waits for nothing.
pub proof fn lemma_configured_never_requests(db: DB, ip: Seq<char>, p: Pairing, a: PairAction)
    requires
        db.username@.len() > 0,
        proceeds_with_ip(db, ip, p, a) || (db.ip@.len() > 0 && starts_pairing(db, p, a)),
    ensures
        !(a is PostPairing),
        a matches PairAction::Finish { message } && message@ == "Already configured"@,
        p.waiting is Nothing,
        p.db == db,
{
}

/// The user name the bridge issues is saved exactly as issued: after a
/// reply that is not an error and whose `v[0]["success"]["username"]` is the
/// text `t`, the database holds `t` as its user name, keeps its address, is
/// saved, and pairing reports success.
pub proof fn lemma_pair_reply_keeps_issued_username(old: DB, v: JsonValue, r: (Pairing, PairStep), t: Seq<char>)
    requires
        after_pair_reply(old, v, r),
        !reply_is_error(v),
        json_str(reply_username(v)) == Some(t),
    ensures
        r.0.db.username@ == t,
        r.0.db.ip == old.ip,
        r.1.notices@ == seq![Notice::SaveDb],
        r.1.action matches PairAction::Finish { message } && message@ == "Pairing Successful!"@,
{
    assert(!(reply_username(v) is Null));
    assert(r.1.notices@ =~= seq![Notice::SaveDb]);
}

/// A reply that refuses pairing, or issues no user name, leaves the
/// database as it was and saves nothing.
pub proof fn lemma_pair_reply_without_username_changes_nothing(old: DB, v: JsonValue, r: (Pairing, PairStep))
    requires
        after_pair_reply(old, v, r),
        reply_is_error(v) || reply_username(v) is Null,
    ensures
        r.0.db == old,
        r.1.notices@.len() == 0,
        r.1.action is Finish,
{
}

/// Discovery keeps the address a list reports exactly: when
/// `v[0]["internalipaddress"]` is the text `t`, the address becomes `t`;
/// when the list reports none, the address is unchanged. The user name is
/// never touched.
pub proof fn lemma_discovery_keeps_reported_address(old: DB, v: JsonValue, r: (Pairing, PairStep))
    requires
        after_bridge_list(old, v, r),
    ensures
        json_str(reported_address(v)) matches Some(t) ==> r.0.db.ip@ == t,
        reported_address(v) is Null ==> r.0.db.ip@ == old.ip@,
        r.0.db.username == old.username,
{
}

} // verus!

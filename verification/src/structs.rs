use vstd::prelude::*;

verus! {

/// What the command-line tool remembers between runs: the bridge's address
/// and the user name the bridge issued when it was paired.
#[derive(Clone, Debug)]
pub struct DB {
    pub ip: String,
    pub username: String,
}

impl DB {
    /// A database that knows neither the bridge nor a user name.
    pub fn empty() -> (db: DB)
        ensures
            db.ip@ == Seq::<char>::empty(),
            db.username@ == Seq::<char>::empty(),
    {
        DB { ip: String::new(), username: String::new() }
    }
}

/// The state a light reports.
///
/// The bridge reports the CIE colour coordinates as two floating-point
/// numbers; they are kept here as their IEEE-754 bit patterns.
#[derive(Clone, Debug)]
pub struct LightState {
    pub on: bool,
    pub bri: u8,
    pub hue: u16,
    pub sat: u8,
    pub xy: [u64; 2],
    pub ct: u16,
    pub alert: String,
    pub effect: String,
    pub colormode: String,
    pub reachable: bool,
}

/// A light as the bridge describes it.
#[derive(Clone, Debug)]
pub struct Light {
    pub state: LightState,
    pub light_type: String,
    pub name: String,
    pub modelid: String,
    pub manufacturername: String,
    pub uniqueid: String,
    pub swversion: String,
    pub swconfigid: String,
    pub productid: String,
}

/// Whether all, or any, of a group's lights are on.
#[derive(Clone, Copy, Debug, PartialEq, Eq)]
pub struct GroupState {
    pub all_on: bool,
    pub any_on: bool,
}

/// The last action applied to a group.
///
/// As in [`LightState`], the colour coordinates are kept as the bit
/// patterns of the two floating-point numbers.
#[derive(Clone, Debug)]
pub struct GroupAction {
    pub on: bool,
    pub bri: u8,
    pub hue: u16,
    pub sat: u8,
    pub effect: String,
    pub xy: [u64; 2],
    pub ct: u16,
    pub alert: String,
    pub colormode: String,
}

/// A group of lights as the bridge describes it.
#[derive(Clone, Debug)]
pub struct Group {
    pub name: String,
    pub lights: Vec<String>,
    pub group_type: String,
    pub state: GroupState,
    pub recycle: bool,
    pub class: String,
    pub action: GroupAction,
}

/// Something the bridge lists under an identifier and that carries a name:
/// a light or a group.
pub trait Named {
    spec fn spec_name(&self) -> Seq<char>;

    fn name(&self) -> (r: &String)
        ensures
            r@ == self.spec_name(),
    ;
}

impl Named for Light {
    open spec fn spec_name(&self) -> Seq<char> {
        self.name@
    }

    fn name(&self) -> (r: &String) {
        &self.name
    }
}

impl Named for Group {
    open spec fn spec_name(&self) -> Seq<char> {
        self.name@
    }

    fn name(&self) -> (r: &String) {
        &self.name
    }
}

} // verus!

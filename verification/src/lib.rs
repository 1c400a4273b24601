//! A verified library for controlling Philips Hue lights and groups: it
//! decides which lights and groups a command addresses, builds the requests
//! sent to the bridge, and drives the pairing conversation with it.

pub mod colors;
pub mod structs;
pub mod idmap;
pub mod json;
pub mod pattern;
pub mod requests;
pub mod selection;
pub mod light_actions;
pub mod group_actions;
pub mod utils;

//! Verified core of the LOQ / Legion / IdeaPad Gaming 4-zone keyboard RGB
//! controller: colours, effects, the CC/16 feature-report packet, profile
//! storage rules, Fn+Space cycling, the controller state machine, the
//! listener's and the window's decisions, and the command-line texts.

pub mod text;
pub mod model;
pub mod error;
pub mod flow;
pub mod packet;
pub mod profile_map;
pub mod config;
pub mod profiles;
pub mod hotkey;
pub mod effects;
pub mod devices;
pub mod detect;
pub mod backend;
pub mod controller;
pub mod readback;
pub mod cli;
pub mod hid_policy;
pub mod instance;
pub mod paths;
pub mod listener;
pub mod editor;

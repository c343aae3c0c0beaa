use vstd::prelude::*;

pub mod events;
pub mod text;
pub mod args;
pub mod params_cmd;
pub mod mixer;
pub mod commands;
pub mod midi;
pub mod envelope;
pub mod voices;
pub mod lfo;
pub mod probe;
pub mod params;
pub mod patch;
pub mod keyboard;
pub mod report;
pub mod single_engine;
pub mod select;
pub mod demo;

verus! {

} // verus!

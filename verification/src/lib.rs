//! NovaDream's launcher core: configuration, game model, store parsing,
//! launch planning and the library's bookkeeping, with their contracts.
use vstd::prelude::*;

pub mod command;
pub mod config;
pub mod game;
pub mod json;
pub mod launch;
pub mod library;
pub mod local_library;
pub mod paths;
pub mod play;
pub mod proton;
pub mod stores;
pub mod system;
pub mod text;
pub mod tray;
pub mod ui;
pub mod umu;

verus! {

} // verus!

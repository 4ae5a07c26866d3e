//! The decisions of the Drop Mazter desktop agent, verified with Verus.
//!
//! The agent watches for the game window, captures it when it is asked to, and talks to
//! a server and to a page. Each part of that is a function from what is known and what
//! has happened to what is known next and what is to be done; whoever calls it performs
//! the action and tells what came of it.

pub mod capture;
pub mod encode;
pub mod hotkey;
pub mod json;
pub mod keybind;
pub mod keynames;
pub mod link;
pub mod paths;
pub mod pixels;
pub mod presence;
pub mod protocol;
pub mod registry;
pub mod shortcut;
pub mod startup;
pub mod status;
pub mod text;
pub mod token;
pub mod tray;
pub mod uninstall;
pub mod update;
pub mod vk;
pub mod window;

//! The verified core of an interactive terminal dashboard over a
//! version-control repository: the windowed commit-log cache and its
//! invalidation rule, the scroll-velocity state, the component event and
//! command routing built on an internal action queue, and the change-flag
//! set that decides what must be recomputed after each input cycle.

pub mod app;
pub mod asynclog;
pub mod components;
pub mod flags;
pub mod git;
pub mod input;
pub mod itembatch;
pub mod popups;
pub mod queue;
pub mod render;
pub mod revlog;
pub mod scroll;
pub mod stash;
pub mod strutil;
pub mod tags;
pub mod textinput;

//! An input-remapping engine: the resolution core that turns the events of a
//! physical input device into the event stream of a virtual one.
//!
//! Raw samples are digitized into canonical events, the held modifiers are
//! kept as a canonical chord, and each event is resolved against the binding
//! tables of the active context.
#![allow(unused_imports)]

pub mod active_client;
pub mod chord;
pub mod codes;
pub mod config;
pub mod device;
pub mod digitizer;
pub mod event_reader;
pub mod event_sender;
pub mod layout;
pub mod magnus_ruby_runtime;
pub mod resolver;
pub mod ruby_runtime;
pub mod settings;
pub mod startup;
pub mod text;
pub mod udev_monitor;
pub mod virtual_keys;

//! A desktop application shell's command bridge and menu-event dispatcher.
//!
//! A UI layer issues named, typed requests to a native backend through a
//! string-keyed command registry and receives a typed result or a typed
//! failure; native menu actions are routed to handlers by stable string
//! identifiers. The registry and the menu are built once at startup and are
//! immutable afterwards, so they may be read by concurrent invocations
//! without synchronization.

pub mod commands;
pub mod dispatch;
pub mod error;
pub mod menu;
pub mod registry;
pub mod value;

//! Verified core of the FluxDown native hosts: the API error and event
//! vocabulary, the live download-speed table that the event sinks keep, the
//! decisions the sinks take for each engine event, and the rules that settle
//! a host-side HLS/BT selection.
pub mod service;
pub mod events;
pub mod task_table;
pub mod live_speeds;
pub mod sink;
pub mod selection;

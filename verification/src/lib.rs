//! A synthetic video test pattern, streamed to a receiver over RTP with RTCP in both
//! directions.
//!
//! The library holds the logic of such a session and leaves the media engine to its caller:
//!
//! - [`frame`] and [`generator`] produce the frames, each a solid colour and a timestamp that
//!   depend on the frame's index alone;
//! - [`pipeline`] describes the processing graph for a [`pipeline::SessionConfig`] and checks
//!   that the engine resolved every element the session reaches by name;
//! - [`event`] decides which events of the graph end a session;
//! - [`session`] is the controller that leads a session from start-up through the run to
//!   teardown, one command at a time;
//! - [`error`] names what can go wrong, [`format`] fixes the shape of the frames, and [`text`]
//!   spells port numbers.

pub mod error;
pub mod event;
pub mod format;
pub mod frame;
pub mod generator;
pub mod pipeline;
pub mod session;
pub mod text;

//! Node-lifecycle and authenticated-call layer for a local peer-to-peer
//! application host.
//!
//! The library bootstraps a host node, installs one application bundle into
//! it exactly once, and produces a replay-protected signed envelope for
//! every call on the application channel.  The host runtime itself is an
//! external collaborator, driven only through its administrative and
//! application surfaces; everything here is therefore expressed as verified
//! decisions and byte protocols over plain values, and the surrounding
//! process performs the actual I/O and reports each outcome back.
//!
//! The components, leaves first:
//! - [`ports`] finds a free local TCP port within a configured range;
//! - [`config`] loads or creates, and renders, the persisted node
//!   configuration document, the only durable source of truth for a
//!   storage root;
//! - [`lifecycle`] owns one start attempt of the embedded host process as
//!   a state machine with a terminal failure phase;
//! - [`installer`] decides the idempotent installation of the application
//!   bundle over the administrative channel;
//! - [`envelope`] and [`codec`] build, sign, frame and interpret the
//!   replay-protected call envelopes and their payload values;
//! - [`messages`], [`profiles`] and [`session`] hold the record types the
//!   calls demonstrate and the event-loop decisions of the interface
//!   around them.

pub mod codec;
pub mod config;
pub mod envelope;
pub mod errors;
pub mod installer;
pub mod lifecycle;
pub mod messages;
pub mod ports;
pub mod profiles;
pub mod session;
pub mod wire;

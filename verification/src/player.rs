//! The wire form of the messages of the `player` gRPC protocol: a daemon
//! update carries an optional payload, one variant per kind of update, and
//! a message whose payload is unset has none.

use vstd::prelude::*;

verus! {

/// A notice that the server moved to another track.
#[derive(Clone, Copy, Debug, PartialEq, Eq, Structural)]
pub struct DaemonUpdateChangedTrack {
    pub new_track_index: u32,
}

/// The payload (a protobuf `oneof`) of a daemon update.
#[derive(Clone, Copy, Debug, PartialEq, Eq, Structural)]
pub enum UpdateType {
    ChangedTrack(DaemonUpdateChangedTrack),
}

/// A daemon update as it travels on the wire; a message without its
/// payload set decodes to `update_type: None`.
#[derive(Clone, Copy, Debug, PartialEq, Eq, Structural)]
pub struct DaemonUpdate {
    pub update_type: Option<UpdateType>,
}

} // verus!

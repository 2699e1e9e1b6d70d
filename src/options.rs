//! The mutable state of one control connection.
use vstd::prelude::*;

use crate::session::SessionInformations;

verus! {

/// How transferred data is represented (the TYPE command).
#[derive(Clone, Copy, Debug, PartialEq, Eq, Structural)]
pub enum DataType {
    ASCII,
    EBCDIC,
    Image,
    Local,
}

/// Whether data connections are opened by the client or by the server.
#[derive(Clone, Copy, Debug, PartialEq, Eq, Structural)]
pub enum ListenMode {
    Active,
    Passive,
}

/// Per-session settings, owned by the connection that uses them.
pub struct ClientOptions {
    pub session: Option<SessionInformations>,
    pub working_directory: String,
    pub data_representation: DataType,
    /// The byte size given with the `L` representation.
    pub local_bytes: i32,
    pub listen_mode: ListenMode,
}

} // verus!

use vstd::prelude::*;

verus! {

/// Why the engine process could not be launched.
pub enum SpawnError {
    /// The bundled executable could not be resolved into a command.
    CommandUnavailable(String),
    /// The operating system refused to create the process.
    SpawnRefused(String),
}

/// An error surfaced by a supervisor command, with the host's own words.
pub enum SidecarError {
    /// `start` could not launch the engine; nothing was stored.
    SpawnFailure(SpawnError),
    /// `stop` could not kill the engine; the handle was dropped all the same.
    KillFailure(String),
}

pub open spec fn command_prefix() -> Seq<char> {
    "Failed to create sidecar command: "@
}

pub open spec fn spawn_prefix() -> Seq<char> {
    "Failed to spawn sidecar: "@
}

pub open spec fn kill_prefix() -> Seq<char> {
    "Failed to kill sidecar: "@
}

impl SidecarError {
    /// The text a caller of the command sees for this error.
    pub open spec fn message_view(&self) -> Seq<char> {
        match self {
            SidecarError::SpawnFailure(SpawnError::CommandUnavailable(e)) => command_prefix() + e@,
            SidecarError::SpawnFailure(SpawnError::SpawnRefused(e)) => spawn_prefix() + e@,
            SidecarError::KillFailure(e) => kill_prefix() + e@,
        }
    }

    /// Renders the error as the human-readable message handed to the caller.
    pub fn message(&self) -> (r: String)
        ensures
            r@ == self.message_view(),
    {
        match self {
            SidecarError::SpawnFailure(SpawnError::CommandUnavailable(e)) => {
                String::from_str("Failed to create sidecar command: ").concat(e.as_str())
            },
            SidecarError::SpawnFailure(SpawnError::SpawnRefused(e)) => {
                String::from_str("Failed to spawn sidecar: ").concat(e.as_str())
            },
            SidecarError::KillFailure(e) => {
                String::from_str("Failed to kill sidecar: ").concat(e.as_str())
            },
        }
    }
}

} // verus!

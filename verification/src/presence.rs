use vstd::prelude::*;

verus! {

/// User presence status on Discord.
#[derive(Debug, Clone, Copy, PartialEq, Eq, Structural)]
pub enum PresenceStatus {
    Online,
    Idle,
    DoNotDisturb,
    Invisible,
}

/// The wire form of a presence status.
pub open spec fn presence_wire(status: PresenceStatus) -> Seq<char> {
    match status {
        PresenceStatus::Online => "online"@,
        PresenceStatus::Idle => "idle"@,
        PresenceStatus::DoNotDisturb => "dnd"@,
        PresenceStatus::Invisible => "invisible"@,
    }
}

impl PresenceStatus {
    /// Returns the wire format string for this status.
    pub fn as_str(self) -> (s: &'static str)
        ensures
            s@ == presence_wire(self),
    {
        match self {
            PresenceStatus::Online => "online",
            PresenceStatus::Idle => "idle",
            PresenceStatus::DoNotDisturb => "dnd",
            PresenceStatus::Invisible => "invisible",
        }
    }
}

} // verus!

//! Names of the channels that connect the router's tasks.

use vstd::prelude::*;
use vstd::string::StringExecFns;

verus! {

/// Which of the router's channels a sink or source belongs to.
#[derive(Debug, Clone, Copy, PartialEq, Eq, Hash, Structural)]
pub enum ChannelKey {
    Scanner,
    Assignments,
    BalancerBacklog,
    AvailableWorkers,
}

/// The name of a channel, as it is printed: the variant's name.
pub open spec fn channel_key_name(key: ChannelKey) -> Seq<char> {
    match key {
        ChannelKey::Scanner => "Scanner"@,
        ChannelKey::Assignments => "Assignments"@,
        ChannelKey::BalancerBacklog => "BalancerBacklog"@,
        ChannelKey::AvailableWorkers => "AvailableWorkers"@,
    }
}

impl ChannelKey {
    /// The channel's name as text (what the key displays as).
    pub fn to_display_string(&self) -> (s: String)
        ensures
            s@ == channel_key_name(*self),
    {
        match self {
            ChannelKey::Scanner => String::from_str("Scanner"),
            ChannelKey::Assignments => String::from_str("Assignments"),
            ChannelKey::BalancerBacklog => String::from_str("BalancerBacklog"),
            ChannelKey::AvailableWorkers => String::from_str("AvailableWorkers"),
        }
    }
}

} // verus!

use vstd::prelude::*;

verus! {

/// Logical channels as the standard defines them.
#[derive(Debug, Clone, Copy, PartialEq, Eq)]
pub enum LogicalChannel {
    /// Access assignment channel.
    Aach,
    /// Signalling channel (half slot, downlink).
    SchHd,
    /// Signalling channel (full slot).
    SchF,
    /// Stealing channel (half slot).
    Stch,
    /// Signalling channel (half slot, uplink).
    SchHu,
    /// Traffic channel (voice).
    TchS,
    /// Traffic channel (2.4 kbit/s).
    Tch24,
    /// Traffic channel (4.8 kbit/s).
    Tch48,
    /// Traffic channel (7.2 kbit/s).
    Tch72,
    /// Broadcast synchronisation channel.
    Bsch,
    /// Broadcast network channel.
    Bnch,
    /// BS linearisation channel (downlink).
    Blch,
    /// Common linearisation channel (uplink).
    Clch,
}

impl LogicalChannel {
    pub open spec fn spec_is_traffic(self) -> bool {
        self is TchS || self is Tch24 || self is Tch48 || self is Tch72
    }

    pub open spec fn spec_is_control_channel(self) -> bool {
        self is Aach || self is Bsch || self is Bnch || self is SchHd || self is SchF || self is Stch || self is SchHu
    }

    pub open spec fn spec_is_linearization_channel(self) -> bool {
        self is Clch || self is Blch
    }

    pub open spec fn spec_is_dl_channel(self) -> bool {
        !(self is SchHu || self is Clch)
    }

    pub open spec fn spec_is_ul_channel(self) -> bool {
        self is SchHu || self is SchF || self is Stch || self is Clch || self.spec_is_traffic()
    }

    /// Whether the channel is a traffic channel.
    pub fn is_traffic(self) -> (res: bool)
        ensures
            res == self.spec_is_traffic(),
    {
        matches!(self, LogicalChannel::TchS | LogicalChannel::Tch24 | LogicalChannel::Tch48 | LogicalChannel::Tch72)
    }

    /// Whether the channel belongs to the control plane (AACH and BSCH
    /// included, though they carry no regular MAC blocks).
    pub fn is_control_channel(self) -> (res: bool)
        ensures
            res == self.spec_is_control_channel(),
    {
        match self {
            LogicalChannel::Aach
            | LogicalChannel::Bsch
            | LogicalChannel::Bnch
            | LogicalChannel::SchHd
            | LogicalChannel::SchF
            | LogicalChannel::Stch
            | LogicalChannel::SchHu => true,
            _ => false,
        }
    }

    /// Whether the channel is a linearisation channel.
    pub fn is_linearization_channel(self) -> (res: bool)
        ensures
            res == self.spec_is_linearization_channel(),
    {
        matches!(self, LogicalChannel::Clch | LogicalChannel::Blch)
    }

    /// Whether the channel may be encountered on the downlink.
    pub fn is_dl_channel(self) -> (res: bool)
        ensures
            res == self.spec_is_dl_channel(),
    {
        match self {
            LogicalChannel::Aach
            | LogicalChannel::SchHd
            | LogicalChannel::SchF
            | LogicalChannel::Stch
            | LogicalChannel::Bsch
            | LogicalChannel::Bnch
            | LogicalChannel::Blch
            | LogicalChannel::TchS
            | LogicalChannel::Tch24
            | LogicalChannel::Tch48
            | LogicalChannel::Tch72 => true,
            LogicalChannel::SchHu | LogicalChannel::Clch => false,
        }
    }

    /// Whether the channel may be encountered on the uplink.
    pub fn is_ul_channel(self) -> (res: bool)
        ensures
            res == self.spec_is_ul_channel(),
    {
        match self {
            LogicalChannel::SchHu
            | LogicalChannel::SchF
            | LogicalChannel::Stch
            | LogicalChannel::Clch
            | LogicalChannel::TchS
            | LogicalChannel::Tch24
            | LogicalChannel::Tch48
            | LogicalChannel::Tch72 => true,
            LogicalChannel::Aach
            | LogicalChannel::SchHd
            | LogicalChannel::Bsch
            | LogicalChannel::Bnch
            | LogicalChannel::Blch => false,
        }
    }
}

impl LogicalChannel {
    /// The text that names the logical channel.
    pub open spec fn spec_text(self) -> Seq<char> {
        match self {
            LogicalChannel::Aach => "AACH"@,
            LogicalChannel::SchHd => "SCH (half slot, downlink)"@,
            LogicalChannel::SchF => "SCH (full slot)"@,
            LogicalChannel::Stch => "STCH"@,
            LogicalChannel::SchHu => "SCH (half slot, uplink)"@,
            LogicalChannel::TchS => "TCH (Voice)"@,
            LogicalChannel::Tch24 => "TCH (2.4 kbps)"@,
            LogicalChannel::Tch48 => "TCH (4.8 kbps)"@,
            LogicalChannel::Tch72 => "TCH (7.2 kbps)"@,
            LogicalChannel::Bsch => "BSCH"@,
            LogicalChannel::Bnch => "BNCH"@,
            LogicalChannel::Blch => "BLCH"@,
            LogicalChannel::Clch => "CLCH"@,
        }
    }

    /// The text that names the logical channel.
    pub fn to_string(&self) -> (res: String)
        ensures
            res@ == self.spec_text(),
    {
        match self {
            LogicalChannel::Aach => String::from_str("AACH"),
            LogicalChannel::SchHd => String::from_str("SCH (half slot, downlink)"),
            LogicalChannel::SchF => String::from_str("SCH (full slot)"),
            LogicalChannel::Stch => String::from_str("STCH"),
            LogicalChannel::SchHu => String::from_str("SCH (half slot, uplink)"),
            LogicalChannel::TchS => String::from_str("TCH (Voice)"),
            LogicalChannel::Tch24 => String::from_str("TCH (2.4 kbps)"),
            LogicalChannel::Tch48 => String::from_str("TCH (4.8 kbps)"),
            LogicalChannel::Tch72 => String::from_str("TCH (7.2 kbps)"),
            LogicalChannel::Bsch => String::from_str("BSCH"),
            LogicalChannel::Bnch => String::from_str("BNCH"),
            LogicalChannel::Blch => String::from_str("BLCH"),
            LogicalChannel::Clch => String::from_str("CLCH"),
        }
    }
}

/// Every logical channel occurs on the downlink or the uplink; traffic
/// channels occur on both; a channel is at most one of traffic, control and
/// linearisation; every channel but the linearisation channels is traffic or
/// control.
pub proof fn lemma_logical_channel_classes(c: LogicalChannel)
    ensures
        c.spec_is_dl_channel() || c.spec_is_ul_channel(),
        c.spec_is_traffic() ==> c.spec_is_dl_channel() && c.spec_is_ul_channel(),
        !(c.spec_is_traffic() && c.spec_is_control_channel()),
        !(c.spec_is_traffic() && c.spec_is_linearization_channel()),
        !(c.spec_is_control_channel() && c.spec_is_linearization_channel()),
        c.spec_is_traffic() || c.spec_is_control_channel() || c.spec_is_linearization_channel(),
{
}

} // verus!

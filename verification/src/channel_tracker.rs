use vstd::prelude::*;
use vstd::hash_map::HashMapWithView;
use crate::tdma_time::TdmaTime;
use crate::tetra_types::{SsiType, TetraAddress};

verus! {

/// Number of timeslots in a TDMA frame, numbered 1 to 4.
pub const NUM_TIMESLOTS: usize = 4;

/// T.209, inactivity time-out on a traffic channel: 18 multiframes, in timeslots.
pub const INACTIVITY_TIMEOUT_SLOTS: i32 = 1296;

/// The channel an MS listens to.
#[derive(Debug, Clone, Copy, PartialEq, Eq)]
pub enum Channel {
    /// The main control channel, on timeslot 1.
    MCCH,
    /// An assigned channel on a timeslot.
    Assigned { slot: u8, assigned_at: TdmaTime, last_activity: TdmaTime },
    /// Not known; the MCCH is assumed.
    Unknown,
}

/// Something that moves an MS to another channel.
#[derive(Debug, Clone, Copy, PartialEq, Eq)]
pub enum ChannelEvent {
    /// The MS was just allocated to an assigned channel.
    Allocated(Channel),
    /// Activity was just observed on a channel.
    Activity(Channel),
    /// The MS was released back to the MCCH.
    Released,
}

impl ChannelEvent {
    /// The channel the MS listens to after the event.
    pub open spec fn spec_channel(self) -> Channel {
        match self {
            ChannelEvent::Allocated(c) => c,
            ChannelEvent::Activity(c) => c,
            ChannelEvent::Released => Channel::MCCH,
        }
    }
}

/// The downlink slots on which an MS listening to `ch` can be reached at
/// `dltime`: the MCCH slot 1, the assigned slot, or both once the MS has been
/// inactive on its assigned channel for longer than the time-out.
pub open spec fn spec_slots_for_channel(ch: Channel, dltime: TdmaTime) -> Seq<u8> {
    match ch {
        Channel::Assigned { slot, last_activity, .. } =>
            if dltime.spec_index() - last_activity.spec_index() > INACTIVITY_TIMEOUT_SLOTS {
                seq![1u8, slot]
            } else {
                seq![slot]
            },
        _ => seq![1u8],
    }
}

/// Whether slot `x` is among the slots of some member of `members`.
pub open spec fn some_member_slot(tracker: ChannelTracker, members: Seq<u32>, dltime: TdmaTime, x: u8) -> bool {
    exists|j: int| 0 <= j < members.len() && #[trigger] tracker.spec_individual_slots(members[j], dltime).contains(x)
}

/// `m` with every key of `keys` mapped to `ch`.
pub open spec fn assign_all(m: Map<u32, Channel>, keys: Seq<u32>, ch: Channel) -> Map<u32, Channel> {
    Map::new(|k: u32| m.contains_key(k) || keys.contains(k), |k: u32| if keys.contains(k) { ch } else { m[k] })
}

/// Tracks which channel each MS listens to, keyed by its individual SSI, and
/// from that the downlink slots on which an individual or a group is reachable.
pub struct ChannelTracker {
    entries: HashMapWithView<u32, Channel>,
}

impl View for ChannelTracker {
    type V = Map<u32, Channel>;

    closed spec fn view(&self) -> Map<u32, Channel> {
        self.entries@
    }
}

impl ChannelTracker {
    /// The channel recorded for an individual SSI, `Unknown` where none is.
    pub open spec fn channel_of(self, ssi: u32) -> Channel {
        if self@.contains_key(ssi) {
            self@[ssi]
        } else {
            Channel::Unknown
        }
    }

    /// The downlink slots on which an individual SSI can be reached.
    pub open spec fn spec_individual_slots(self, ssi: u32, dltime: TdmaTime) -> Seq<u8> {
        spec_slots_for_channel(self.channel_of(ssi), dltime)
    }

    /// A tracker that knows no MS.
    pub fn new() -> (res: ChannelTracker)
        ensures
            res@ == Map::<u32, Channel>::empty(),
    {
        broadcast use vstd::std_specs::hash::group_hash_axioms;
        ChannelTracker { entries: HashMapWithView::new() }
    }

    /// The downlink slots on which an individual SSI can be reached.
    fn individual_slots(&self, dltime: TdmaTime, ssi: u32) -> (res: Vec<u8>)
        ensures
            res@ == self.spec_individual_slots(ssi, dltime),
    {
        let channel = match self.entries.get(&ssi) {
            Some(c) => *c,
            None => Channel::Unknown,
        };
        match channel {
            // Last seen assigned to a channel: include the MCCH too once the time-out has expired.
            Channel::Assigned { last_activity, slot, .. } => {
                if dltime.diff(last_activity) > INACTIVITY_TIMEOUT_SLOTS {
                    vec![1, slot]
                } else {
                    vec![slot]
                }
            },
            // Last seen on the MCCH, or on an unknown channel (so the MCCH is assumed).
            _ => vec![1],
        }
    }

    /// The downlink slots (1 to 4) on which signalling for `address` should be
    /// sent. For an individual address, the slots of its MS; for a group
    /// address, every slot of a member, each once, where `group_members` are
    /// the individual SSIs attached to the group.
    pub fn get_slots_for_address(&self, dltime: TdmaTime, address: TetraAddress, group_members: &[u32]) -> (res: Vec<u8>)
        requires
            address.ssi_type is Issi || address.ssi_type is Gssi,
        ensures
            address.ssi_type is Issi ==> res@ == self.spec_individual_slots(address.ssi, dltime),
            address.ssi_type is Gssi ==> res@.no_duplicates(),
            address.ssi_type is Gssi ==> forall|x: u8| #[trigger] res@.contains(x) <==> some_member_slot(*self, group_members@, dltime, x),
    {
        match address.ssi_type {
            SsiType::Issi => self.individual_slots(dltime, address.ssi),
            _ => {
                let mut out: Vec<u8> = Vec::new();
                let mut i: usize = 0;
                while i < group_members.len()
                    invariant
                        i <= group_members.len(),
                        out@.no_duplicates(),
                        forall|x: u8| #[trigger] out@.contains(x) <==> some_member_slot(*self, group_members@.take(i as int), dltime, x),
                    decreases group_members.len() - i,
                {
                    let slots = self.individual_slots(dltime, group_members[i]);
                    let ghost before = out@;
                    let mut k: usize = 0;
                    while k < slots.len()
                        invariant
                            k <= slots.len(),
                            i < group_members.len(),
                            slots@ == self.spec_individual_slots(group_members@[i as int], dltime),
                            out@.no_duplicates(),
                            forall|x: u8| #[trigger] out@.contains(x) <==> (before.contains(x) || slots@.take(k as int).contains(x)),
                        decreases slots.len() - k,
                    {
                        let x = slots[k];
                        let ghost prev = out@;
                        if !contains_u8(&out, x) {
                            out.push(x);
                        }
                        proof {
                            broadcast use vstd::seq_lib::lemma_seq_contains_after_push;
                            assert(slots@.take(k + 1) =~= slots@.take(k as int).push(x));
                        }
                        k = k + 1;
                    }
                    proof {
                        assert(slots@.take(k as int) =~= slots@);
                        let ms = group_members@.take(i + 1);
                        assert(ms =~= group_members@.take(i as int).push(group_members@[i as int]));
                        assert forall|x: u8| #[trigger] out@.contains(x) <==> some_member_slot(*self, ms, dltime, x) by {
                            if some_member_slot(*self, ms, dltime, x) {
                                let j = choose|j: int| 0 <= j < ms.len() && #[trigger] self.spec_individual_slots(ms[j], dltime).contains(x);
                                if j < i {
                                    assert(group_members@.take(i as int)[j] == ms[j]);
                                    assert(some_member_slot(*self, group_members@.take(i as int), dltime, x));
                                }
                            }
                            if before.contains(x) {
                                let j = choose|j: int| 0 <= j < i && #[trigger] self.spec_individual_slots(group_members@.take(i as int)[j], dltime).contains(x);
                                assert(ms[j] == group_members@.take(i as int)[j]);
                            }
                            if slots@.contains(x) {
                                assert(ms[i as int] == group_members@[i as int]);
                                assert(self.spec_individual_slots(ms[i as int], dltime).contains(x));
                            }
                        }
                    }
                    i = i + 1;
                }
                proof {
                    assert(group_members@.take(i as int) =~= group_members@);
                }
                out
            },
        }
    }

    /// Records the effect of an event on the MS of an individual address, or
    /// on every member of a group address, where `group_members` are the
    /// individual SSIs attached to the group.
    pub fn handle(&mut self, address: TetraAddress, event: ChannelEvent, group_members: &[u32])
        requires
            address.ssi_type is Issi || address.ssi_type is Gssi,
        ensures
            address.ssi_type is Issi ==> final(self)@ == old(self)@.insert(address.ssi, event.spec_channel()),
            address.ssi_type is Gssi ==> final(self)@ == assign_all(old(self)@, group_members@, event.spec_channel()),
            address.ssi_type is Issi ==> match event {
                ChannelEvent::Allocated(c) => final(self).channel_of(address.ssi) == c,
                ChannelEvent::Activity(c) => final(self).channel_of(address.ssi) == c,
                ChannelEvent::Released => final(self).channel_of(address.ssi) == Channel::MCCH,
            },
            address.ssi_type is Gssi ==> forall|ssi: u32| #[trigger] group_members@.contains(ssi) ==> match event {
                ChannelEvent::Allocated(c) => final(self).channel_of(ssi) == c,
                ChannelEvent::Activity(c) => final(self).channel_of(ssi) == c,
                ChannelEvent::Released => final(self).channel_of(ssi) == Channel::MCCH,
            },
    {
        let channel = match event {
            ChannelEvent::Allocated(to_channel) => to_channel,
            ChannelEvent::Activity(on_channel) => on_channel,
            ChannelEvent::Released => Channel::MCCH,
        };
        match address.ssi_type {
            SsiType::Issi => {
                self.entries.insert(address.ssi, channel);
            },
            _ => {
                let ghost start = self@;
                let mut i: usize = 0;
                proof {
                    assert(assign_all(start, group_members@.take(0), channel) =~= start);
                }
                while i < group_members.len()
                    invariant
                        i <= group_members.len(),
                        self@ == assign_all(start, group_members@.take(i as int), channel),
                    decreases group_members.len() - i,
                {
                    let ssi = group_members[i];
                    let ghost before = self@;
                    self.entries.insert(ssi, channel);
                    proof {
                        broadcast use vstd::seq_lib::lemma_seq_contains_after_push;
                        let ms = group_members@.take(i + 1);
                        assert(ms =~= group_members@.take(i as int).push(ssi));
                        assert(self@ =~= assign_all(start, ms, channel));
                    }
                    i = i + 1;
                }
                proof {
                    assert(group_members@.take(i as int) =~= group_members@);
                }
            },
        }
    }
}

/// After an event for an individual SSI, that SSI is reachable where the
/// event's channel is, and every other SSI where it was before.
pub proof fn lemma_individual_event_then_slots(before: ChannelTracker, after: ChannelTracker, ssi: u32, event: ChannelEvent, other: u32, dltime: TdmaTime)
    requires
        after@ == before@.insert(ssi, event.spec_channel()),
    ensures
        after.spec_individual_slots(ssi, dltime) == spec_slots_for_channel(event.spec_channel(), dltime),
        other != ssi ==> after.spec_individual_slots(other, dltime) == before.spec_individual_slots(other, dltime),
{
}

/// An MS is recorded on the channel that an allocation or an observed
/// activity names, and on the MCCH after a release; no other SSI moves.
pub proof fn lemma_event_records_named_channel(before: ChannelTracker, after: ChannelTracker, ssi: u32, event: ChannelEvent, other: u32)
    requires
        after@ == before@.insert(ssi, event.spec_channel()),
    ensures
        event matches ChannelEvent::Activity(c) ==> after.channel_of(ssi) == c,
        event matches ChannelEvent::Allocated(c) ==> after.channel_of(ssi) == c,
        event is Released ==> after.channel_of(ssi) == Channel::MCCH,
        other != ssi ==> after.channel_of(other) == before.channel_of(other),
{
}

/// After an event for a group, every member is reachable where the event's
/// channel is, and every SSI outside the group where it was before.
pub proof fn lemma_group_event_then_slots(before: ChannelTracker, after: ChannelTracker, members: Seq<u32>, event: ChannelEvent, ssi: u32, dltime: TdmaTime)
    requires
        after@ == assign_all(before@, members, event.spec_channel()),
    ensures
        members.contains(ssi) ==> after.spec_individual_slots(ssi, dltime) == spec_slots_for_channel(event.spec_channel(), dltime),
        !members.contains(ssi) ==> after.spec_individual_slots(ssi, dltime) == before.spec_individual_slots(ssi, dltime),
{
}

/// Released or unknown, an MS is reachable on the MCCH alone; on an assigned
/// channel, on its slot, and on the MCCH as well once it has been inactive
/// for longer than the time-out.
pub proof fn lemma_slots_for_channel(slot: u8, assigned_at: TdmaTime, last_activity: TdmaTime, dltime: TdmaTime)
    ensures
        spec_slots_for_channel(ChannelEvent::Released.spec_channel(), dltime) == seq![1u8],
        spec_slots_for_channel(Channel::Unknown, dltime) == seq![1u8],
        spec_slots_for_channel(Channel::Assigned { slot, assigned_at, last_activity }, dltime).contains(slot),
        spec_slots_for_channel(Channel::Assigned { slot, assigned_at, last_activity }, dltime).contains(1u8)
            <==> (slot == 1 || dltime.spec_index() - last_activity.spec_index() > INACTIVITY_TIMEOUT_SLOTS),
{
    let s = spec_slots_for_channel(Channel::Assigned { slot, assigned_at, last_activity }, dltime);
    if dltime.spec_index() - last_activity.spec_index() > INACTIVITY_TIMEOUT_SLOTS {
        assert(s[0] == 1u8 && s[1] == slot);
    } else {
        assert(s[0] == slot);
        if s.contains(1u8) {
            let i = choose|i: int| 0 <= i < s.len() && s[i] == 1u8;
            assert(i == 0);
        }
    }
}

/// Whether `v` holds `x`.
fn contains_u8(v: &Vec<u8>, x: u8) -> (res: bool)
    ensures
        res == v@.contains(x),
{
    let mut i: usize = 0;
    while i < v.len()
        invariant
            i <= v.len(),
            forall|j: int| 0 <= j < i ==> v@[j] != x,
        decreases v.len() - i,
    {
        if v[i] == x {
            return true;
        }
        i = i + 1;
    }
    false
}

/// The slots as a mask over the four timeslots: entry `i` tells whether slot
/// `i + 1` is among them.
pub fn slot_mask(slots: &Vec<u8>) -> (res: [bool; 4])
    ensures
        forall|i: int| 0 <= i < 4 ==> #[trigger] res@[i] == slots@.contains((i + 1) as u8),
{
    let mut mask = [false, false, false, false];
    let mut i: usize = 0;
    while i < 4
        invariant
            i <= 4,
            mask@.len() == 4,
            forall|j: int| 0 <= j < i ==> #[trigger] mask@[j] == slots@.contains((j + 1) as u8),
        decreases 4 - i,
    {
        let present = contains_u8(slots, (i + 1) as u8);
        mask[i] = present;
        i = i + 1;
    }
    mask
}

} // verus!

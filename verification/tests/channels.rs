use bluestation::stack_command::StackCommand;
use bluestation::channel_tracker::{slot_mask, Channel, ChannelEvent, ChannelTracker, INACTIVITY_TIMEOUT_SLOTS};
use bluestation::slot_locator::{SimpleSlotLocator, SlotLocator};
use bluestation::tdma_time::TdmaTime;
use bluestation::tetra_types::{SsiType, TetraAddress};
use bluestation::tmv::logical_chans::LogicalChannel;

#[test]
fn test_individual_channels_tracked_correctly() {
    let mut tracker = ChannelTracker::new();
    let base_time = TdmaTime::default();

    // Show the tracker a channel allocation
    tracker.handle(TetraAddress::issi(1024), ChannelEvent::Allocated(Channel::Assigned {
        slot: 2,
        assigned_at: base_time,
        last_activity: base_time,
    }), &[]);

    // Check the slots immediately after, should be on slot 2
    assert_eq!(slot_mask(&tracker.get_slots_for_address(base_time, TetraAddress::issi(1024), &[])), [false, true, false, false]);

    // Check the slots after the expiry time,
    // Should be 1 (MCCH) + 2
    assert_eq!(slot_mask(&tracker.get_slots_for_address(base_time.add_timeslots(INACTIVITY_TIMEOUT_SLOTS + 1), TetraAddress::issi(1024), &[])), [true, true, false, false]);

    // Provide an update that sends the MS back to the MCCH
    tracker.handle(TetraAddress::issi(1024), ChannelEvent::Activity(Channel::MCCH), &[]);
    assert_eq!(slot_mask(&tracker.get_slots_for_address(base_time, TetraAddress::issi(1024), &[])), [true, false, false, false]);
}

#[test]
fn test_group_channels_tracked_correctly() {
    let mut tracker = ChannelTracker::new();
    let base_time = TdmaTime::default();

    // Assign some ISSIs to a group
    let group_1_members = [1024u32, 1025u32];

    // Show the tracker a channel allocation for one of the groups
    tracker.handle(TetraAddress::new(1, SsiType::Gssi), ChannelEvent::Allocated(Channel::Assigned {
        slot: 2,
        assigned_at: base_time,
        last_activity: base_time,
    }), &group_1_members);

    // Check the slots immediately after for the affiliated ISSIs, should be on slot 2
    assert_eq!(slot_mask(&tracker.get_slots_for_address(base_time, TetraAddress::issi(1024), &[])), [false, true, false, false]);
    assert_eq!(slot_mask(&tracker.get_slots_for_address(base_time, TetraAddress::issi(1025), &[])), [false, true, false, false]);

    // And for a non-affiliated ISSI, should be on MCCH only
    assert_eq!(slot_mask(&tracker.get_slots_for_address(base_time, TetraAddress::issi(1026), &[])), [true, false, false, false]);

    // Advance time past the inactivity timeout, should be on MCCH + 2 for the affiliated ISSIs
    assert_eq!(slot_mask(&tracker.get_slots_for_address(base_time.add_timeslots(INACTIVITY_TIMEOUT_SLOTS + 1), TetraAddress::issi(1024), &[])), [true, true, false, false]);
    assert_eq!(slot_mask(&tracker.get_slots_for_address(base_time.add_timeslots(INACTIVITY_TIMEOUT_SLOTS + 1), TetraAddress::issi(1025), &[])), [true, true, false, false]);
}

#[test]
fn group_slots_are_the_union_of_member_slots() {
    let mut tracker = ChannelTracker::new();
    let t0 = TdmaTime::default();
    tracker.handle(TetraAddress::issi(10), ChannelEvent::Allocated(Channel::Assigned { slot: 3, assigned_at: t0, last_activity: t0 }), &[]);
    tracker.handle(TetraAddress::issi(11), ChannelEvent::Allocated(Channel::Assigned { slot: 2, assigned_at: t0, last_activity: t0 }), &[]);
    tracker.handle(TetraAddress::issi(12), ChannelEvent::Allocated(Channel::Assigned { slot: 3, assigned_at: t0, last_activity: t0 }), &[]);
    let group = TetraAddress::new(7, SsiType::Gssi);
    let slots = tracker.get_slots_for_address(t0, group, &[10, 11, 12, 13]);
    assert_eq!(slots, vec![3, 2, 1]);
    assert_eq!(slot_mask(&slots), [true, true, true, false]);
    // Exactly at the time-out the assigned slot alone is still used.
    let at_timeout = t0.add_timeslots(INACTIVITY_TIMEOUT_SLOTS);
    assert_eq!(tracker.get_slots_for_address(at_timeout, TetraAddress::issi(10), &[]), vec![3]);
    // Released members go back to the MCCH.
    tracker.handle(group, ChannelEvent::Released, &[10, 11]);
    assert_eq!(tracker.get_slots_for_address(t0, group, &[10, 11]), vec![1]);
    assert_eq!(tracker.get_slots_for_address(t0, TetraAddress::issi(12), &[]), vec![3]);
}

#[test]
fn tdma_time_arithmetic() {
    let t = TdmaTime::default();
    assert_eq!(t, TdmaTime { t: 1, f: 1, m: 1, h: 0 });
    assert_eq!(t.add_timeslots(5), TdmaTime { t: 2, f: 2, m: 1, h: 0 });
    assert_eq!(t.add_timeslots(72), TdmaTime { t: 1, f: 1, m: 2, h: 0 });
    assert_eq!(t.add_timeslots(4320), TdmaTime { t: 1, f: 1, m: 1, h: 1 });
    assert_eq!(t.add_timeslots(-1), TdmaTime { t: 4, f: 18, m: 60, h: 65535 });
    assert_eq!(t.add_timeslots(1297).diff(t), 1297);
    assert_eq!(t.diff(t.add_timeslots(3)), -3);
    assert_eq!(INACTIVITY_TIMEOUT_SLOTS, 18 * 18 * 4);
}

#[test]
fn simple_slot_locator_always_mcch() {
    let loc = SimpleSlotLocator::new();
    assert_eq!(loc.get_slots_for_address(TdmaTime::default(), TetraAddress::issi(5)), [true, false, false, false]);
}

#[test]
fn logical_channel_classes() {
    assert!(LogicalChannel::Tch48.is_traffic());
    assert!(!LogicalChannel::SchF.is_traffic());
    assert!(LogicalChannel::Aach.is_control_channel());
    assert!(!LogicalChannel::Clch.is_control_channel());
    assert!(LogicalChannel::Blch.is_linearization_channel());
    assert!(!LogicalChannel::Bnch.is_linearization_channel());
    assert!(LogicalChannel::Bsch.is_dl_channel());
    assert!(!LogicalChannel::SchHu.is_dl_channel());
    assert!(LogicalChannel::Clch.is_ul_channel());
    assert!(!LogicalChannel::Aach.is_ul_channel());
    assert_eq!(LogicalChannel::Tch24.to_string(), "TCH (2.4 kbps)");
    assert_eq!(LogicalChannel::SchHd.to_string(), "SCH (half slot, downlink)");
}

#[test]
fn console_commands() {
    assert_eq!(StackCommand::parse("quit"), StackCommand::Quit);
    assert_eq!(StackCommand::parse("exit"), StackCommand::Quit);
    assert_eq!(StackCommand::parse("q"), StackCommand::Quit);
    assert_eq!(StackCommand::parse("show"), StackCommand::Show);
    assert_eq!(StackCommand::parse(""), StackCommand::Empty);
    assert_eq!(StackCommand::parse("shows"), StackCommand::Unknown);
    assert_eq!(StackCommand::parse("Q"), StackCommand::Unknown);
}

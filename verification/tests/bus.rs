use openvst3::abi::{v3_bus_info, Tuid, BUS_DIRECTION_OUTPUT, MEDIA_TYPE_AUDIO};
use openvst3::bus::{
    activation_plan, arrangements_needed, detect_output_channels, should_activate_bus,
};

fn output_bus(channel_count: i32) -> v3_bus_info {
    v3_bus_info {
        media_type: MEDIA_TYPE_AUDIO,
        direction: BUS_DIRECTION_OUTPUT,
        channel_count,
        bus_type: 0,
        flags: 0,
        name: [0u8; 128],
    }
}

#[test]
fn activation_policy_needs_channels_on_both_sides() {
    assert!(should_activate_bus(2, 2));
    assert!(!should_activate_bus(0, 2));
    assert!(!should_activate_bus(2, 0));
    assert!(!should_activate_bus(0, 0));
}

#[test]
fn detect_output_channels_uses_first_bus() {
    let bus = output_bus(6);
    assert_eq!(detect_output_channels(1, Some(&bus)), 6);
}

#[test]
fn detect_output_channels_falls_back_to_stereo() {
    assert_eq!(detect_output_channels(0, None), 2);
    assert_eq!(detect_output_channels(-1, None), 2);
    let silent = output_bus(0);
    assert_eq!(detect_output_channels(1, Some(&silent)), 2);
    assert_eq!(detect_output_channels(3, None), 2);
}

#[test]
fn activation_plan_follows_policy_per_bus() {
    let buses = vec![output_bus(2), output_bus(0), output_bus(6)];
    assert_eq!(activation_plan(2, &buses), vec![true, false, true]);
    // No output budget: everything on this side stays deactivated.
    assert_eq!(activation_plan(0, &buses), vec![false, false, false]);
    assert_eq!(activation_plan(2, &Vec::new()), Vec::<bool>::new());
}

#[test]
fn arrangement_reapplication_skipped_when_empty() {
    assert!(!arrangements_needed(0, 0));
    assert!(arrangements_needed(1, 0));
    assert!(arrangements_needed(0, 2));
}

#[test]
fn tuid_wraps_bytes_verbatim() {
    let bytes = [7u8; 16];
    let id = Tuid::new(bytes);
    assert_eq!(id.0, bytes);
    assert_eq!(Tuid::new(bytes), id);
}

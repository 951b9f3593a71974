use openvst3::lifecycle::{LifecycleOp, LifecycleState};
use openvst3::process::{
    null_process_setup, silence_flags, symbolic_sample_size, BlockShape, BufferPlan, NullDrive,
    SampleWidth, PROCESS_MODE_REALTIME, SYMBOLIC_SAMPLE_32, SYMBOLIC_SAMPLE_64,
};
use openvst3::HostError;

#[test]
fn silence_flags_three_channels_sets_low_bits() {
    let f = silence_flags(3);
    assert_eq!(f, 0b111);
    for c in 0..64u32 {
        let bit = (f >> c) & 1;
        assert_eq!(bit, if c < 3 { 1 } else { 0 });
    }
}

#[test]
fn silence_flags_zero_channels_is_zero() {
    assert_eq!(silence_flags(0), 0);
}

#[test]
fn silence_flags_unaddressable_counts_flag_nothing() {
    assert_eq!(silence_flags(64), 0);
    assert_eq!(silence_flags(100), 0);
    assert_eq!(silence_flags(63), (1u64 << 63) - 1);
}

#[test]
fn buffer_plan_allocates_only_on_first_block() {
    let mut plan = BufferPlan::new();
    let shape = BlockShape { channels: 2, frames: 256 };
    assert!(plan.prepare(shape));
    for _ in 0..10_000 {
        assert!(!plan.prepare(shape));
        assert_eq!(plan.shape, Some(shape));
    }
    // A shape change allocates once more, then the stream is steady again.
    let wider = BlockShape { channels: 4, frames: 256 };
    assert!(plan.prepare(wider));
    assert!(!plan.prepare(wider));
}

#[test]
fn null_process_setup_fields() {
    let setup = null_process_setup(48_000, 256, SampleWidth::Width32);
    assert_eq!(setup.process_mode, PROCESS_MODE_REALTIME);
    assert_eq!(setup.sample_rate_hz, 48_000);
    assert_eq!(setup.max_samples_per_block, 256);
    assert_eq!(setup.width, SampleWidth::Width32);
    assert_eq!(setup.flags, 0);
    assert_eq!(symbolic_sample_size(SampleWidth::Width32), SYMBOLIC_SAMPLE_32);
    assert_eq!(symbolic_sample_size(SampleWidth::Width64), SYMBOLIC_SAMPLE_64);
}

#[test]
fn null_drive_walks_full_sequence() {
    let mut drive = NullDrive::new();
    let mut seen = Vec::new();
    while let Some(op) = drive.next_op() {
        seen.push(op);
        drive.report(0);
    }
    assert_eq!(
        seen,
        vec![
            LifecycleOp::Initialize,
            LifecycleOp::SetupProcessing,
            LifecycleOp::ActivateBuses,
            LifecycleOp::SetActive(true),
            LifecycleOp::SetProcessing(true),
            LifecycleOp::Process,
            LifecycleOp::SetProcessing(false),
            LifecycleOp::SetActive(false),
            LifecycleOp::Terminate,
            LifecycleOp::Release,
        ]
    );
    assert_eq!(drive.state, LifecycleState::Released);
    assert!(drive.result().is_ok());
    assert!(drive.teardown_failures.is_empty());
}

#[test]
fn null_drive_process_failure_tears_down() {
    let mut drive = NullDrive::new();
    let mut teardown_seen = Vec::new();
    while let Some(op) = drive.next_op() {
        if !drive.tearing_down && op == LifecycleOp::Process {
            drive.report(-4);
            continue;
        }
        if drive.tearing_down {
            teardown_seen.push(op);
        }
        drive.report(0);
    }
    assert_eq!(
        teardown_seen,
        vec![
            LifecycleOp::SetProcessing(false),
            LifecycleOp::SetActive(false),
            LifecycleOp::Terminate,
            LifecycleOp::Release,
        ]
    );
    assert_eq!(drive.state, LifecycleState::Released);
    assert!(matches!(drive.result(), Err(HostError::TErr(-4))));
}

#[test]
fn null_drive_early_failure_still_releases() {
    let mut drive = NullDrive::new();
    // The very first step (initialize) fails: only terminate and release
    // are still owed.
    drive.report(-1);
    let mut rest = Vec::new();
    while let Some(op) = drive.next_op() {
        rest.push(op);
        drive.report(0);
    }
    assert_eq!(rest, vec![LifecycleOp::Terminate, LifecycleOp::Release]);
    assert_eq!(drive.state, LifecycleState::Released);
    assert!(matches!(drive.result(), Err(HostError::TErr(-1))));
}

#[test]
fn null_drive_records_teardown_failures() {
    let mut drive = NullDrive::new();
    while let Some(op) = drive.next_op() {
        if !drive.tearing_down && op == LifecycleOp::Process {
            drive.report(-4);
            continue;
        }
        if drive.tearing_down && op == LifecycleOp::SetActive(false) {
            drive.report(-3);
            continue;
        }
        drive.report(0);
    }
    // The teardown failure is recorded, the drive still ran to release, and
    // the overall outcome is the first failure.
    assert_eq!(drive.teardown_failures, vec![-3]);
    assert_eq!(drive.state, LifecycleState::Released);
    assert!(matches!(drive.result(), Err(HostError::TErr(-4))));
}

use megatec_ups_control::codec::descriptor_plan;
use megatec_ups_control::Command;
use megatec_ups_control::DescriptorPlan;
use megatec_ups_control::UpsError;

fn plan(cmd: Command) -> DescriptorPlan {
    descriptor_plan(&cmd).unwrap()
}

#[test]
fn fixed_commands_use_their_descriptor_indices() {
    assert_eq!(plan(Command::GetName), DescriptorPlan { index: 2, max_length: 256 });
    assert_eq!(plan(Command::GetStatus), DescriptorPlan { index: 3, max_length: 256 });
    assert_eq!(plan(Command::GetStatusNoAck), DescriptorPlan { index: 3, max_length: 256 });
    assert_eq!(plan(Command::Test), DescriptorPlan { index: 4, max_length: 256 });
    assert_eq!(plan(Command::TestUntilBatteryLow), DescriptorPlan { index: 5, max_length: 256 });
    assert_eq!(plan(Command::SwitchBeep), DescriptorPlan { index: 7, max_length: 256 });
    assert_eq!(plan(Command::AbortTest), DescriptorPlan { index: 11, max_length: 256 });
    assert_eq!(plan(Command::GetRating), DescriptorPlan { index: 13, max_length: 256 });
}

#[test]
fn shutdown_uses_the_large_length() {
    assert_eq!(plan(Command::Shutdown), DescriptorPlan { index: 105, max_length: 2460 });
}

#[test]
fn timed_test_encodes_its_duration_as_the_length() {
    assert_eq!(plan(Command::TestWithTime(1)), DescriptorPlan { index: 6, max_length: 101 });
    assert_eq!(plan(Command::TestWithTime(10)), DescriptorPlan { index: 6, max_length: 116 });
    assert_eq!(plan(Command::TestWithTime(19)), DescriptorPlan { index: 6, max_length: 125 });
    assert_eq!(plan(Command::TestWithTime(20)), DescriptorPlan { index: 6, max_length: 132 });
    assert_eq!(plan(Command::TestWithTime(29)), DescriptorPlan { index: 6, max_length: 195 });
}

#[test]
fn timed_test_rejects_durations_without_a_code() {
    assert!(matches!(
        descriptor_plan(&Command::TestWithTime(0)),
        Err(UpsError::InvalidTime)
    ));
    assert!(matches!(
        descriptor_plan(&Command::TestWithTime(100)),
        Err(UpsError::InvalidTime)
    ));
}

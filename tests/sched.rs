use ps_gpib::sched::{lock_priority, Resource, Task};

#[test]
fn ceilings_are_highest_user_priority() {
    assert_eq!(Resource::UsbSerial.ceiling(), Task::UsbRx.priority());
    assert_eq!(Resource::UartRxBuf.ceiling(), Task::UartRx.priority());
    assert_eq!(Resource::Query.ceiling(), Task::Ping.priority());
    assert_eq!(Resource::BtnPause.ceiling(), Task::ButtonPause.priority());
    assert_eq!(Resource::Ps.ceiling(), Task::Idle.priority());
}

#[test]
fn lock_raises_only_below_ceiling() {
    assert_eq!(lock_priority(Task::Idle.priority(), Resource::UartRxBuf), 3);
    assert_eq!(lock_priority(Task::UsbRx.priority(), Resource::UsbRxBuf), 4);
    assert_eq!(lock_priority(Task::Idle.priority(), Resource::Ps), 0);
    assert_eq!(lock_priority(Task::Ping.priority(), Resource::Query), 1);
}

#[test]
fn priorities_ordered() {
    assert!(Task::Idle.priority() < Task::Ping.priority());
    assert!(Task::Ping.priority() < Task::ButtonPause.priority());
    assert!(Task::ButtonEncoder.priority() < Task::UartRx.priority());
    assert!(Task::UartRx.priority() < Task::UsbTx.priority());
}

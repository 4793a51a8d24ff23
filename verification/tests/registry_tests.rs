use meter_link::codec::build_request;
use meter_link::device::{Device, PollOutcome, PollPhase};
use meter_link::error::PollError;
use meter_link::link::{BaudRate, LinkAction, LinkChannel, LinkEvent};
use meter_link::registry::{DeviceRegistry, DeviceReport, PassStep};

const ONE_RAW_UNIT: [u8; 6] = [0, 0, 0x00, 0x00, 0x3F, 0xF0];

fn registry_of(addresses: &[u8]) -> DeviceRegistry {
    let mut registry = DeviceRegistry::new(LinkChannel::new());
    for address in addresses {
        registry.attach(Device::new(*address));
    }
    registry
}

/// A device that already holds a reading.
fn device_with_reading(address: u8) -> Device {
    let mut device = Device::new(address);
    let outcome = device.interpret(&build_request(address, 9, 0x0500), &ONE_RAW_UNIT);
    assert!(matches!(outcome, PollOutcome::Updated(_)));
    device
}

/// Answers every action with success until the pass is done; returns the
/// places on whose behalf an action was asked, in order.
fn drive(registry: &mut DeviceRegistry) -> (Vec<usize>, Vec<DeviceReport>) {
    let (mut pass, mut step) = registry.poll_all();
    let mut asked = Vec::new();
    let mut answers = 0;
    loop {
        let event = match step {
            PassStep::Done => break,
            PassStep::Perform { device, action } => {
                asked.push(device);
                match action {
                    LinkAction::Reconfigure { .. } => LinkEvent::Reconfigured,
                    LinkAction::Send => LinkEvent::Written(pass.request().len()),
                    LinkAction::Receive { .. } => LinkEvent::Received(ONE_RAW_UNIT.to_vec()),
                }
            },
        };
        answers += 1;
        assert!(answers <= 3 * registry.len());
        step = registry.advance_poll_all(&mut pass, event);
    }
    (asked, pass.report().clone())
}

#[test]
fn new_registry_is_empty() {
    let registry = DeviceRegistry::new(LinkChannel::with_port("COM7".to_string(), BaudRate::Baud4800));
    assert_eq!(registry.len(), 0);
    assert!(registry.device(0).is_none());
    assert!(!registry.is_busy(0));
    assert_eq!(registry.channel().port_name(), "COM7");
    assert_eq!(registry.channel().baud_rate(), BaudRate::Baud4800);
}

#[test]
fn devices_keep_the_order_of_attachment() {
    let mut registry = DeviceRegistry::new(LinkChannel::new());
    assert_eq!(registry.attach(Device::new(30)), 0);
    assert_eq!(registry.attach(Device::new(10)), 1);
    assert_eq!(registry.attach(Device::new(20)), 2);
    assert_eq!(registry.len(), 3);
    assert_eq!(registry.device(0).unwrap().address(), 30);
    assert_eq!(registry.device(1).unwrap().address(), 10);
    assert_eq!(registry.device(2).unwrap().address(), 20);
    assert!(registry.device(3).is_none());
}

#[test]
fn attach_does_not_compare_addresses() {
    let registry = registry_of(&[5, 5]);
    assert_eq!(registry.len(), 2);
    assert_eq!(registry.device(0).unwrap().address(), 5);
    assert_eq!(registry.device(1).unwrap().address(), 5);
}

#[test]
fn attached_device_is_free() {
    let registry = registry_of(&[1]);
    assert!(!registry.is_busy(0));
}

#[test]
fn acquire_succeeds_once() {
    let mut registry = registry_of(&[1, 2]);
    assert!(registry.try_acquire(1));
    assert!(registry.is_busy(1));
    assert!(!registry.is_busy(0));
    assert!(!registry.try_acquire(1));
    registry.release(1);
    assert!(!registry.is_busy(1));
    assert!(registry.try_acquire(1));
}

#[test]
fn acquire_of_a_missing_device_fails() {
    let mut registry = registry_of(&[1]);
    assert!(!registry.try_acquire(1));
    registry.release(1);
    assert_eq!(registry.len(), 1);
    assert!(!registry.is_busy(0));
}

#[test]
fn device_identifier_is_cached_in_the_registry() {
    let mut registry = registry_of(&[1, 2]);
    let first = registry.device_identifier(1).unwrap();
    let second = registry.device_identifier(1).unwrap();
    assert_eq!(first, second);
    assert_eq!(first.len(), 36);
    let other = registry.device_identifier(0).unwrap();
    assert_ne!(first, other);
    assert!(registry.device_identifier(2).is_none());
}

#[test]
fn pass_over_an_empty_registry_is_done_at_once() {
    let mut registry = registry_of(&[]);
    let (pass, step) = registry.poll_all();
    assert_eq!(step, PassStep::Done);
    assert_eq!(pass.cursor(), 0);
    assert_eq!(pass.phase(), PollPhase::Idle);
    assert!(pass.report().is_empty());
}

#[test]
fn pass_polls_every_device_in_the_order_of_attachment() {
    let mut registry = registry_of(&[3, 1, 2]);
    let (asked, report) = drive(&mut registry);
    assert_eq!(asked, vec![0, 0, 0, 1, 1, 1, 2, 2, 2]);
    assert_eq!(
        report,
        vec![
            DeviceReport { index: 0, outcome: PollOutcome::NoUpdate },
            DeviceReport { index: 1, outcome: PollOutcome::NoUpdate },
            DeviceReport { index: 2, outcome: PollOutcome::NoUpdate },
        ]
    );
    for index in 0..3 {
        assert!(!registry.is_busy(index));
    }
    assert!(registry.channel().is_open());
}

#[test]
fn pass_sends_each_device_its_own_request() {
    let mut registry = registry_of(&[3, 9]);
    let (mut pass, step) = registry.poll_all();
    assert_eq!(step, PassStep::Perform { device: 0, action: LinkAction::Reconfigure { open_port: true } });
    assert!(registry.is_busy(0));
    let step = registry.advance_poll_all(&mut pass, LinkEvent::Reconfigured);
    assert_eq!(step, PassStep::Perform { device: 0, action: LinkAction::Send });
    assert_eq!(pass.request(), &build_request(3, 5, 1));
    let step = registry.advance_poll_all(&mut pass, LinkEvent::Written(8));
    assert_eq!(step, PassStep::Perform { device: 0, action: LinkAction::Receive { max_len: 255 } });
    let step = registry.advance_poll_all(&mut pass, LinkEvent::Received(vec![0; 6]));
    assert_eq!(step, PassStep::Perform { device: 1, action: LinkAction::Reconfigure { open_port: false } });
    assert!(!registry.is_busy(0));
    assert!(registry.is_busy(1));
    assert_eq!(pass.cursor(), 1);
    let step = registry.advance_poll_all(&mut pass, LinkEvent::Reconfigured);
    assert_eq!(step, PassStep::Perform { device: 1, action: LinkAction::Send });
    assert_eq!(pass.request(), &build_request(9, 5, 1));
}

#[test]
fn busy_device_is_skipped_and_left_as_it_was() {
    let mut registry = DeviceRegistry::new(LinkChannel::new());
    registry.attach(Device::new(1));
    registry.attach(device_with_reading(2));
    registry.attach(Device::new(3));
    let before = registry.device(1).unwrap().consumption();
    assert!(before.is_some());
    assert!(registry.try_acquire(1));

    let (asked, report) = drive(&mut registry);

    assert_eq!(asked, vec![0, 0, 0, 2, 2, 2]);
    assert!(report.iter().all(|entry| entry.index != 1));
    assert_eq!(report.len(), 2);
    assert_eq!(registry.device(1).unwrap().consumption(), before);
    assert_eq!(registry.device(1).unwrap().address(), 2);
    assert!(registry.is_busy(1));
    assert!(!registry.is_busy(0));
    assert!(!registry.is_busy(2));
}

#[test]
fn busy_first_and_last_devices_are_skipped() {
    let mut registry = registry_of(&[1, 2, 3]);
    assert!(registry.try_acquire(0));
    assert!(registry.try_acquire(2));
    let (asked, report) = drive(&mut registry);
    assert_eq!(asked, vec![1, 1, 1]);
    assert_eq!(report, vec![DeviceReport { index: 1, outcome: PollOutcome::NoUpdate }]);
}

#[test]
fn pass_over_busy_devices_only_is_done_at_once() {
    let mut registry = registry_of(&[1, 2]);
    assert!(registry.try_acquire(0));
    assert!(registry.try_acquire(1));
    let (pass, step) = registry.poll_all();
    assert_eq!(step, PassStep::Done);
    assert_eq!(pass.cursor(), 2);
    assert!(pass.report().is_empty());
    assert!(registry.is_busy(0));
    assert!(registry.is_busy(1));
}

#[test]
fn released_device_is_polled_by_the_next_pass() {
    let mut registry = registry_of(&[1, 2]);
    assert!(registry.try_acquire(0));
    let (asked, _) = drive(&mut registry);
    assert_eq!(asked, vec![1, 1, 1]);
    registry.release(0);
    let (asked, _) = drive(&mut registry);
    assert_eq!(asked, vec![0, 0, 0, 1, 1, 1]);
}

#[test]
fn device_in_flight_is_skipped_by_a_second_pass() {
    let mut registry = registry_of(&[1, 2]);
    let (first, step) = registry.poll_all();
    assert_eq!(step, PassStep::Perform { device: 0, action: LinkAction::Reconfigure { open_port: true } });
    let (second, step) = registry.poll_all();
    assert_eq!(step, PassStep::Perform { device: 1, action: LinkAction::Reconfigure { open_port: true } });
    assert_eq!(first.cursor(), 0);
    assert_eq!(second.cursor(), 1);
}

#[test]
fn transport_failure_of_one_device_does_not_stop_the_pass() {
    let mut registry = registry_of(&[1, 2, 3]);
    let (mut pass, _) = registry.poll_all();
    let step = registry.advance_poll_all(&mut pass, LinkEvent::OpenFailed);
    assert_eq!(step, PassStep::Perform { device: 1, action: LinkAction::Reconfigure { open_port: true } });
    let step = registry.advance_poll_all(&mut pass, LinkEvent::Reconfigured);
    assert_eq!(step, PassStep::Perform { device: 1, action: LinkAction::Send });
    let step = registry.advance_poll_all(&mut pass, LinkEvent::Written(2));
    assert_eq!(step, PassStep::Perform { device: 2, action: LinkAction::Reconfigure { open_port: false } });
    let step = registry.advance_poll_all(&mut pass, LinkEvent::ConfigureFailed);
    assert_eq!(step, PassStep::Done);
    assert_eq!(
        pass.report(),
        &vec![
            DeviceReport { index: 0, outcome: PollOutcome::Failed(PollError::TransportOpenError) },
            DeviceReport { index: 1, outcome: PollOutcome::Failed(PollError::TransportWriteError) },
            DeviceReport {
                index: 2,
                outcome: PollOutcome::Failed(PollError::TransportConfigureError)
            },
        ]
    );
    for index in 0..3 {
        assert!(!registry.is_busy(index));
        assert_eq!(registry.device(index).unwrap().consumption(), None);
    }
}

#[test]
fn failed_pass_leaves_readings_unchanged() {
    let mut registry = DeviceRegistry::new(LinkChannel::new());
    registry.attach(device_with_reading(1));
    let before = registry.device(0).unwrap().consumption();
    let (mut pass, _) = registry.poll_all();
    registry.advance_poll_all(&mut pass, LinkEvent::Reconfigured);
    registry.advance_poll_all(&mut pass, LinkEvent::Written(8));
    let step = registry.advance_poll_all(&mut pass, LinkEvent::Received(Vec::new()));
    assert_eq!(step, PassStep::Done);
    assert_eq!(registry.device(0).unwrap().consumption(), before);
}

#[test]
fn finished_pass_stays_done() {
    let mut registry = registry_of(&[1]);
    let (mut pass, _) = registry.poll_all();
    registry.advance_poll_all(&mut pass, LinkEvent::OpenFailed);
    assert_eq!(pass.cursor(), 1);
    let report = pass.report().clone();
    for _ in 0..3 {
        let step = registry.advance_poll_all(&mut pass, LinkEvent::Reconfigured);
        assert_eq!(step, PassStep::Done);
    }
    assert_eq!(pass.report(), &report);
    assert_eq!(pass.phase(), PollPhase::Idle);
    assert!(!registry.channel().is_open());
    assert!(!registry.is_busy(0));
}

#[test]
fn unexpected_answer_ends_the_cycle_of_the_device_in_flight() {
    let mut registry = registry_of(&[1, 2]);
    let (mut pass, _) = registry.poll_all();
    let step = registry.advance_poll_all(&mut pass, LinkEvent::Received(vec![1, 2, 3]));
    assert_eq!(step, PassStep::Perform { device: 1, action: LinkAction::Reconfigure { open_port: true } });
    assert_eq!(
        pass.report(),
        &vec![DeviceReport { index: 0, outcome: PollOutcome::Failed(PollError::UnexpectedEvent) }]
    );
}

#[test]
fn pass_is_done_within_three_answers_per_device() {
    let mut registry = registry_of(&[1, 2, 3, 4]);
    assert!(registry.try_acquire(2));
    let (mut pass, mut step) = registry.poll_all();
    let mut answers = 0;
    while step != PassStep::Done {
        step = registry.advance_poll_all(&mut pass, LinkEvent::Reconfigured);
        answers += 1;
        assert!(answers <= 12);
    }
    assert_eq!(answers, 6);
}

use mock_tracker::{
    Expectation, ExpectationTracker, InputPinExpectation, InterfaceExpectation,
    OutputPinExpectation, Packet,
};

#[test]
#[should_panic(expected = "QueueExhausted { call: TryGetPacket, index: Some(0) }")]
fn unexpected_call_to_try_get_packet_test() {
    let mut tracker = ExpectationTracker::new();
    let mock = tracker.mock();

    mock.try_get_packet(&mut tracker).unwrap();
}

#[test]
fn received_packet_test() {
    let mut tracker = ExpectationTracker::new();
    let mock = tracker.mock();

    tracker.expect(
        &mock,
        Expectation::Interface(InterfaceExpectation::ReceivedPacket(Packet {
        is_error: true,
        device_address: 0x1111,
        data: vec![0x11, 0x11, 0x11],
    })),
    );

    let packet = mock.try_get_packet(&mut tracker).unwrap();

    assert_eq!(packet.is_error, true);
    assert_eq!(packet.device_address, 0x1111);
    assert_eq!(packet.data, vec![0x11, 0x11, 0x11]);

    tracker.done().unwrap();
}

#[test]
#[should_panic(expected = "QueueExhausted { call: TrySendPacket, index: Some(0) }")]
fn unexpected_call_to_try_send_packet_test() {
    let mut tracker = ExpectationTracker::new();
    let mock = tracker.mock();

    mock.try_send_packet(&mut tracker, &Packet {
        is_error: true,
        device_address: 0x1111,
        data: vec![0x11, 0x11, 0x11],
    }).unwrap();
}

#[test]
fn sent_packet_test() {
    let mut tracker = ExpectationTracker::new();
    let mock = tracker.mock();

    tracker.expect(
        &mock,
        Expectation::Interface(InterfaceExpectation::SentPacket(Packet {
        is_error: true,
        device_address: 0x1111,
        data: vec![0x11, 0x11, 0x11],
    })),
    );

    mock.try_send_packet(&mut tracker, &Packet {
        is_error: true,
        device_address: 0x1111,
        data: vec![0x11, 0x11, 0x11],
    }).unwrap();

    tracker.done().unwrap();
}

#[test]
fn interface_expectation_combination_test() {
    let mut tracker = ExpectationTracker::new();
    let mock = tracker.mock();

    tracker.expect(
        &mock,
        Expectation::Interface(InterfaceExpectation::SentPacket(Packet {
        is_error: true,
        device_address: 0x1111,
        data: vec![0x11, 0x11, 0x11],
    })),
    );
    tracker.expect(
        &mock,
        Expectation::Interface(InterfaceExpectation::ReceivedPacket(Packet {
        is_error: false,
        device_address: 0x2222,
        data: vec![0x22, 0x22, 0x22],
    })),
    );
    tracker.expect(
        &mock,
        Expectation::Interface(InterfaceExpectation::SentPacket(Packet {
        is_error: true,
        device_address: 0x3333,
        data: vec![0x33, 0x33, 0x33],
    })),
    );

    mock.try_send_packet(&mut tracker, &Packet {
        is_error: true,
        device_address: 0x1111,
        data: vec![0x11, 0x11, 0x11],
    }).unwrap();

    let packet = mock.try_get_packet(&mut tracker).unwrap();

    assert_eq!(packet.is_error, false);
    assert_eq!(packet.device_address, 0x2222);
    assert_eq!(packet.data, vec![0x22, 0x22, 0x22]);

    mock.try_send_packet(&mut tracker, &Packet {
        is_error: true,
        device_address: 0x3333,
        data: vec![0x33, 0x33, 0x33],
    }).unwrap();

    tracker.done().unwrap();
}

#[test]
#[should_panic(expected = "QueueExhausted { call: IsHigh, index: Some(0) }")]
fn unexpected_call_to_is_high_test() {
    let mut tracker = ExpectationTracker::new();
    let mock = tracker.mock();

    mock.is_high(&mut tracker).unwrap();
}

#[test]
fn call_to_is_high_is_high_test() {
    let mut tracker = ExpectationTracker::new();
    let mock = tracker.mock();

    tracker.expect(&mock, Expectation::InputPin(InputPinExpectation::IsHigh));

    let result = mock.is_high(&mut tracker).unwrap();
    assert_eq!(result, true);

    tracker.done().unwrap();
}

#[test]
fn call_to_is_high_is_low_test() {
    let mut tracker = ExpectationTracker::new();
    let mock = tracker.mock();

    tracker.expect(&mock, Expectation::InputPin(InputPinExpectation::IsLow));

    let result = mock.is_high(&mut tracker).unwrap();
    assert_eq!(result, false);

    tracker.done().unwrap();
}

#[test]
#[should_panic(expected = "QueueExhausted { call: IsLow, index: Some(0) }")]
fn unexpected_call_to_is_low_test() {
    let mut tracker = ExpectationTracker::new();
    let mock = tracker.mock();

    mock.is_low(&mut tracker).unwrap();
}

#[test]
fn call_to_is_low_is_low_test() {
    let mut tracker = ExpectationTracker::new();
    let mock = tracker.mock();

    tracker.expect(&mock, Expectation::InputPin(InputPinExpectation::IsLow));

    let result = mock.is_low(&mut tracker).unwrap();
    assert_eq!(result, true);

    tracker.done().unwrap();
}

#[test]
fn call_to_is_low_is_high_test() {
    let mut tracker = ExpectationTracker::new();
    let mock = tracker.mock();

    tracker.expect(&mock, Expectation::InputPin(InputPinExpectation::IsHigh));

    let result = mock.is_low(&mut tracker).unwrap();
    assert_eq!(result, false);

    tracker.done().unwrap();
}

#[test]
fn input_pin_expectation_combination_test() {
    let mut tracker = ExpectationTracker::new();
    let mock = tracker.mock();

    tracker.expect(&mock, Expectation::InputPin(InputPinExpectation::IsHigh));
    tracker.expect(&mock, Expectation::InputPin(InputPinExpectation::IsLow));
    tracker.expect(&mock, Expectation::InputPin(InputPinExpectation::IsHigh));

    let result = mock.is_high(&mut tracker).unwrap();
    assert_eq!(result, true);

    let result = mock.is_high(&mut tracker).unwrap();
    assert_eq!(result, false);

    let result = mock.is_low(&mut tracker).unwrap();
    assert_eq!(result, false);

    tracker.done().unwrap();
}

#[test]
#[should_panic(expected = "QueueExhausted { call: SetHigh, index: Some(0) }")]
fn unexpected_call_to_set_high_test() {
    let mut tracker = ExpectationTracker::new();
    let mock = tracker.mock();

    mock.set_high(&mut tracker).unwrap();
}

#[test]
fn set_high_test() {
    let mut tracker = ExpectationTracker::new();
    let mock = tracker.mock();

    tracker.expect(&mock, Expectation::OutputPin(OutputPinExpectation::SetHigh));

    mock.set_high(&mut tracker).unwrap();
    tracker.done().unwrap();
}

#[test]
#[should_panic(expected = "QueueExhausted { call: SetLow, index: Some(0) }")]
fn unexpected_call_to_set_low_test() {
    let mut tracker = ExpectationTracker::new();
    let mock = tracker.mock();

    mock.set_low(&mut tracker).unwrap();
}

#[test]
fn set_low_test() {
    let mut tracker = ExpectationTracker::new();
    let mock = tracker.mock();

    tracker.expect(&mock, Expectation::OutputPin(OutputPinExpectation::SetLow));

    mock.set_low(&mut tracker).unwrap();
    tracker.done().unwrap();
}

#[test]
fn output_pin_expectation_combination_test() {
    let mut tracker = ExpectationTracker::new();
    let mock = tracker.mock();

    tracker.expect(&mock, Expectation::OutputPin(OutputPinExpectation::SetHigh));
    tracker.expect(&mock, Expectation::OutputPin(OutputPinExpectation::SetLow));
    tracker.expect(&mock, Expectation::OutputPin(OutputPinExpectation::SetHigh));

    mock.set_high(&mut tracker).unwrap();
    mock.set_low(&mut tracker).unwrap();
    mock.set_high(&mut tracker).unwrap();

    tracker.done().unwrap();
}

#[test]
fn input_pin_output_pin_expectation_combination_test() {
    let mut tracker = ExpectationTracker::new();
    let input_pin_mock = tracker.mock();
    let output_pin_mock = tracker.mock();

    tracker.expect(
        &input_pin_mock,
        Expectation::InputPin(InputPinExpectation::IsHigh),
    );
    tracker.expect(
        &output_pin_mock,
        Expectation::OutputPin(OutputPinExpectation::SetLow),
    );
    tracker.expect(
        &input_pin_mock,
        Expectation::InputPin(InputPinExpectation::IsLow),
    );

    let result = input_pin_mock.is_high(&mut tracker).unwrap();
    assert_eq!(result, true);

    output_pin_mock.set_low(&mut tracker).unwrap();

    let result = input_pin_mock.is_low(&mut tracker).unwrap();
    assert_eq!(result, true);

    tracker.done().unwrap();
}

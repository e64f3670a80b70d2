use mock_tracker::output_pin::{Expectation, Mock};

#[test]
#[should_panic(expected = "QueueExhausted { call: SetHigh, index: None }")]
fn mock_unexpected_call_to_set_high_test() {
    let mut mock = Mock::new(vec![]);

    mock.set_high().unwrap();
}

#[test]
fn mock_set_high_test() {
    let mut mock = Mock::new(vec![Expectation::SetHigh]);

    mock.set_high().unwrap();

    mock.done().unwrap();
}

#[test]
#[should_panic(expected = "QueueExhausted { call: SetLow, index: None }")]
fn mock_unexpected_call_to_set_low_test() {
    let mut mock = Mock::new(vec![]);

    mock.set_low().unwrap();
}

#[test]
fn mock_set_low_test() {
    let mut mock = Mock::new(vec![Expectation::SetLow]);

    mock.set_low().unwrap();

    mock.done().unwrap();
}

#[test]
fn output_pin_mock_combination_test() {
    let mut mock = Mock::new(vec![
        Expectation::SetHigh,
        Expectation::SetLow,
        Expectation::SetHigh,
    ]);

    mock.set_high().unwrap();
    mock.set_low().unwrap();
    mock.set_high().unwrap();

    mock.done().unwrap();
}

use std::borrow::Cow;

use serialport_stream::{new, ClearBuffer, DataBits, FlowControl, Parity, StopBits};

#[test]
fn defaults_are_8n1_without_flow_control() {
    let builder = new("/dev/ttyUSB0", 115_200);
    assert_eq!(builder.path, "/dev/ttyUSB0");
    assert_eq!(builder.baud_rate, 115_200);
    assert_eq!(builder.data_bits, DataBits::Eight);
    assert_eq!(builder.parity, Parity::Off);
    assert_eq!(builder.stop_bits, StopBits::One);
    assert_eq!(builder.flow_control, FlowControl::Off);
    assert!(!builder.dtr_on_open);
    assert_eq!(builder.clear_buffer, None);
}

#[test]
fn every_setting_can_be_chained() {
    let builder = new("COM3", 9600)
        .path("COM10")
        .baud_rate(19_200)
        .data_bits(DataBits::Seven)
        .parity(Parity::Even)
        .stop_bits(StopBits::Two)
        .flow_control(FlowControl::Hardware)
        .dtr_on_open(true)
        .clear(ClearBuffer::All);
    assert_eq!(builder.path, "COM10");
    assert_eq!(builder.baud_rate, 19_200);
    assert_eq!(builder.data_bits, DataBits::Seven);
    assert_eq!(builder.parity, Parity::Even);
    assert_eq!(builder.stop_bits, StopBits::Two);
    assert_eq!(builder.flow_control, FlowControl::Hardware);
    assert!(builder.dtr_on_open);
    assert_eq!(builder.clear_buffer, Some(ClearBuffer::All));
}

#[test]
fn paths_come_in_several_types() {
    let borrowed: &str = "/dev/ttyS0";
    let owned: String = borrowed.to_string();
    assert_eq!(new(borrowed, 1).path, borrowed);
    assert_eq!(new(owned.clone(), 1).path, borrowed);
    assert_eq!(new(&owned, 1).path, borrowed);
    assert_eq!(new(Cow::Borrowed(borrowed), 1).path, borrowed);
    assert_eq!(new("", 1).path(owned).path, borrowed);
}

#[test]
fn last_setting_counts_and_order_does_not_matter() {
    let a = new("p", 1).parity(Parity::Odd).parity(Parity::Even);
    assert_eq!(a, new("p", 1).parity(Parity::Even));
    let b = new("p", 1).baud_rate(300).dtr_on_open(true);
    assert_eq!(b, new("p", 1).dtr_on_open(true).baud_rate(300));
    assert_eq!(b.clone(), b);
}

#[test]
fn set_later_is_set_at_first() {
    assert_eq!(new("a", 300).path("b"), new("b", 300));
    assert_eq!(new("a", 300).path(&"b".to_string()), new(Cow::Borrowed("b"), 300));
    assert_eq!(new("a", 300).path(Cow::<str>::Owned("b".to_string())), new("b", 300));
    assert_eq!(new("a", 300).baud_rate(0), new("a", 0));
}

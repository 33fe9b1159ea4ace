use serialport_stream::error::ErrorKind;
use serialport_stream::line_settings::{
    data_bits_from_u8, flow_control_from_str, format_conventional_settings, parity_from_str,
    parity_to_conventional_letter, stop_bits_from_u8,
};
use serialport_stream::{DataBits, FlowControl, Parity, StopBits};

#[test]
fn data_bits_round_trip() {
    for n in 5u8..=8u8 {
        let db = data_bits_from_u8(n).unwrap();
        assert_eq!(u8::from(db), n);
    }
    let err = data_bits_from_u8(4).unwrap_err();
    assert_eq!(err.kind(), ErrorKind::InvalidInput);
    assert!(err.message().unwrap().contains("invalid number of data bits"));
}

#[test]
fn stop_bits_round_trip() {
    for n in [1u8, 2u8] {
        let sb = stop_bits_from_u8(n).unwrap();
        assert_eq!(u8::from(sb), n);
    }
    let err = stop_bits_from_u8(3).unwrap_err();
    assert_eq!(err.kind(), ErrorKind::InvalidInput);
    assert!(err.message().unwrap().contains("invalid number of stop bits"));
}

#[test]
fn parity_and_flow_tokens() {
    assert_eq!(parity_from_str("none").unwrap(), Parity::Off);
    assert_eq!(parity_from_str("even").unwrap(), Parity::Even);
    assert_eq!(parity_from_str("odd").unwrap(), Parity::Odd);
    assert_eq!(
        parity_from_str("None").unwrap_err().kind(),
        ErrorKind::InvalidInput
    );

    assert_eq!(flow_control_from_str("none").unwrap(), FlowControl::Off);
    assert_eq!(
        flow_control_from_str("hardware").unwrap(),
        FlowControl::Hardware
    );
    assert_eq!(
        flow_control_from_str("software").unwrap(),
        FlowControl::Software
    );
}

#[test]
fn conventional_format_matches_prior_behavior() {
    let s = format_conventional_settings(1_000_000, DataBits::Eight, Parity::Off, StopBits::One);
    assert_eq!(s, "1000000/8/N/1");
}

#[test]
fn conventional_format_of_other_settings() {
    assert_eq!(
        format_conventional_settings(115_200, DataBits::Eight, Parity::Off, StopBits::One),
        "115200/8/N/1"
    );
    assert_eq!(
        format_conventional_settings(0, DataBits::Five, Parity::Even, StopBits::Two),
        "0/5/E/2"
    );
    assert_eq!(
        format_conventional_settings(u32::MAX, DataBits::Seven, Parity::Odd, StopBits::Two),
        "4294967295/7/O/2"
    );
}

#[test]
fn parity_letters() {
    assert_eq!(parity_to_conventional_letter(Parity::Off), "N");
    assert_eq!(parity_to_conventional_letter(Parity::Even), "E");
    assert_eq!(parity_to_conventional_letter(Parity::Odd), "O");
}

#[test]
fn error_texts_name_the_value() {
    assert_eq!(
        data_bits_from_u8(255).unwrap_err().message(),
        Some("invalid number of data bits: 255 (expected 5–8)")
    );
    assert_eq!(
        data_bits_from_u8(9).unwrap_err().message(),
        Some("invalid number of data bits: 9 (expected 5–8)")
    );
    assert_eq!(
        stop_bits_from_u8(0).unwrap_err().message(),
        Some("invalid number of stop bits: 0 (expected 1 or 2)")
    );
    assert_eq!(
        parity_from_str("mark").unwrap_err().message(),
        Some("invalid parity value: mark (expected none, even, odd)")
    );
    assert_eq!(
        parity_from_str("").unwrap_err().message(),
        Some("invalid parity value:  (expected none, even, odd)")
    );
    assert_eq!(
        flow_control_from_str("xon").unwrap_err().message(),
        Some("invalid flow control value: xon (expected none, hardware, software)")
    );
}

#[test]
fn numbers_of_bits_convert_both_ways() {
    for value in 0u8..=255 {
        match DataBits::try_from(value) {
            Ok(bits) => assert_eq!(u8::from(bits), value),
            Err(()) => assert!(!(5..=8).contains(&value)),
        }
        match StopBits::try_from(value) {
            Ok(bits) => assert_eq!(u8::from(bits), value),
            Err(()) => assert!(value != 1 && value != 2),
        }
        assert_eq!(data_bits_from_u8(value).ok(), DataBits::try_from(value).ok());
        assert_eq!(stop_bits_from_u8(value).ok(), StopBits::try_from(value).ok());
    }
}

#[test]
fn tokens_and_conventional_texts_are_distinct() {
    let parities = ["none", "even", "odd"].map(|token| parity_from_str(token).unwrap());
    let modes = ["none", "hardware", "software"].map(|token| flow_control_from_str(token).unwrap());
    for i in 0..3 {
        for j in 0..i {
            assert_ne!(parities[i], parities[j]);
            assert_ne!(modes[i], modes[j]);
        }
    }
    let mut texts: Vec<String> = Vec::new();
    for baud_rate in [1u32, 11, 115_200] {
        for parity in parities {
            for data_bits in [DataBits::Five, DataBits::Eight] {
                for stop_bits in [StopBits::One, StopBits::Two] {
                    let text = format_conventional_settings(baud_rate, data_bits, parity, stop_bits);
                    assert!(!texts.contains(&text));
                    texts.push(text);
                }
            }
        }
    }
}

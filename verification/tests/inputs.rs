use zk_credential::circuit::CircuitKind;
use zk_credential::error::ZkProofError;
use zk_credential::protocol::{BackendFailure, Operation};
use zk_credential::inputs::{find_field, parse_decimal_scalar, scalar_input, InputField, NumberError};
use zk_credential::statement::ShowCircuit;

// The order of the field in decimal: 2^256 - 2^224 + 2^192 + 2^96 - 1.
const ORDER: &str = "115792089210356248762697446949407573530086143415290314195533631308867097853951";
const BELOW_ORDER: &str =
    "115792089210356248762697446949407573530086143415290314195533631308867097853950";

fn field(name: &str, values: &[&str]) -> InputField {
    InputField {
        name: name.to_string(),
        values: values.iter().map(|v| v.as_bytes().to_vec()).collect(),
    }
}

fn scalar(low: &[u8]) -> [u8; 32] {
    let mut bytes = [0u8; 32];
    bytes[..low.len()].copy_from_slice(low);
    bytes
}

#[test]
fn numerals_denote_their_numbers() {
    assert_eq!(parse_decimal_scalar(b"0"), Ok(scalar(&[])));
    assert_eq!(parse_decimal_scalar(b"7"), Ok(scalar(&[7])));
    assert_eq!(parse_decimal_scalar(b"255"), Ok(scalar(&[255])));
    assert_eq!(parse_decimal_scalar(b"256"), Ok(scalar(&[0, 1])));
    assert_eq!(parse_decimal_scalar(b"65535"), Ok(scalar(&[255, 255])));
    assert_eq!(parse_decimal_scalar(b"1000000"), Ok(scalar(&[0x40, 0x42, 0x0f])));
    assert_eq!(parse_decimal_scalar(b"000012"), Ok(scalar(&[12])));
    assert_eq!(
        parse_decimal_scalar(b"18446744073709551616"),
        Ok(scalar(&[0, 0, 0, 0, 0, 0, 0, 0, 1]))
    );
}

#[test]
fn numerals_stop_at_the_order_of_the_field() {
    let mut largest = [0u8; 32];
    for i in 0..12 {
        largest[i] = 0xff;
    }
    largest[0] = 0xfe;
    largest[24] = 0x01;
    for i in 28..32 {
        largest[i] = 0xff;
    }
    assert_eq!(parse_decimal_scalar(BELOW_ORDER.as_bytes()), Ok(largest));
    assert_eq!(parse_decimal_scalar(ORDER.as_bytes()), Err(NumberError::TooLarge));
    // 2^256 and a number of a hundred digits
    assert_eq!(
        parse_decimal_scalar(
            b"115792089237316195423570985008687907853269984665640564039457584007913129639936"
        ),
        Err(NumberError::TooLarge)
    );
    assert_eq!(parse_decimal_scalar(&[b'9'; 100]), Err(NumberError::TooLarge));
}

#[test]
fn what_is_not_a_numeral_is_rejected() {
    assert_eq!(parse_decimal_scalar(b""), Err(NumberError::Empty));
    assert_eq!(parse_decimal_scalar(b"-1"), Err(NumberError::NotADigit { index: 0 }));
    assert_eq!(parse_decimal_scalar(b"12a4b"), Err(NumberError::NotADigit { index: 2 }));
    assert_eq!(parse_decimal_scalar(b"12 "), Err(NumberError::NotADigit { index: 2 }));
    assert_eq!(parse_decimal_scalar(b"0x10"), Err(NumberError::NotADigit { index: 1 }));
    assert_eq!(parse_decimal_scalar(b"/"), Err(NumberError::NotADigit { index: 0 }));
    assert_eq!(parse_decimal_scalar(b":"), Err(NumberError::NotADigit { index: 0 }));
    // A bad digit is reported even where the digits before it are already too many.
    let mut text = vec![b'9'; 100];
    text.push(b'x');
    assert_eq!(parse_decimal_scalar(&text), Err(NumberError::NotADigit { index: 100 }));
}

#[test]
fn the_first_field_of_a_name_is_found() {
    let fields = vec![field("a", &["1"]), field("b", &["2"]), field("a", &["3"])];
    assert_eq!(find_field(&fields, "a"), Some(0));
    assert_eq!(find_field(&fields, "b"), Some(1));
    assert_eq!(find_field(&fields, "c"), None);
    assert_eq!(find_field(&vec![], "a"), None);
    assert_eq!(scalar_input(&fields, "a").unwrap(), scalar(&[1]));
}

#[test]
fn the_shared_values_are_the_device_key() {
    let fields = vec![
        field("message", &["1", "2"]),
        field("deviceKeyY", &["513", "9"]),
        field("deviceKeyX", &["258"]),
    ];
    let shared = ShowCircuit::new(None).shared_from_inputs(&fields).unwrap();
    assert_eq!(shared, vec![scalar(&[2, 1]), scalar(&[1, 2])]);
}

#[test]
fn missing_or_malformed_inputs_are_invalid_input() {
    let circuit = ShowCircuit::new(None);
    let cases: Vec<(Vec<InputField>, &str)> = vec![
        (vec![], "The input document has no field 'deviceKeyX'"),
        (vec![field("deviceKeyY", &["1"])], "The input document has no field 'deviceKeyX'"),
        (vec![field("deviceKeyX", &["1"])], "The input document has no field 'deviceKeyY'"),
        (
            vec![field("deviceKeyX", &[]), field("deviceKeyY", &["1"])],
            "The field 'deviceKeyX' of the input document holds no number",
        ),
        (
            vec![field("deviceKeyX", &["1"]), field("deviceKeyY", &["1.5"])],
            "The first number of the field 'deviceKeyY' cannot be used: it holds something other than digits",
        ),
        (
            vec![field("deviceKeyX", &[""]), field("deviceKeyY", &["x"])],
            "The first number of the field 'deviceKeyX' cannot be used: it is empty",
        ),
        (
            vec![field("deviceKeyX", &[ORDER]), field("deviceKeyY", &["1"])],
            "The first number of the field 'deviceKeyX' cannot be used: it is not below the order of the field",
        ),
    ];
    for (fields, message) in cases {
        let failure = circuit.shared_from_inputs(&fields).unwrap_err();
        match &failure {
            BackendFailure::InvalidInput { reason } => assert_eq!(reason, message),
            other => panic!("unexpected {:?}", other),
        }
        let e = failure.into_error(Operation::Prove, CircuitKind::Show);
        assert!(matches!(e, ZkProofError::InvalidInput { .. }));
        assert_eq!(e.message(), &format!("Prove of the show circuit failed: {}", message));
    }
}

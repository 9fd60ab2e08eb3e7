use rpn_scalar::dispatch::evaluate;
use rpn_scalar::dispatch::ScalarFuncSig;
use rpn_scalar::impl_string::ascii;
use rpn_scalar::impl_string::length;

#[test]
fn null_propagates_for_every_function() {
    for sig in [ScalarFuncSig::Length, ScalarFuncSig::Ascii] {
        assert_eq!(evaluate(sig, &None).unwrap(), None);
    }
}

#[test]
fn empty_input_gives_present_zero() {
    for sig in [ScalarFuncSig::Length, ScalarFuncSig::Ascii] {
        assert_eq!(evaluate(sig, &Some(Vec::new())).unwrap(), Some(0i64));
    }
}

#[test]
fn length_counts_bytes_not_characters() {
    // Two characters, six encoded bytes: the count is of 8-bit units.
    let arg = Some("你好".as_bytes().to_vec());
    assert_eq!(length(&arg).unwrap(), Some(6i64));
    // One character per byte: the counts coincide.
    let arg = Some(b"TiKV".to_vec());
    assert_eq!(length(&arg).unwrap(), Some(4i64));
}

#[test]
fn ascii_reads_the_raw_leading_byte() {
    // The lead byte of a multi-byte-encoded character, not its codepoint.
    let arg = Some("数据库".as_bytes().to_vec());
    assert_eq!(ascii(&arg).unwrap(), Some(230i64));
    // The highest possible unit value.
    let arg = Some(vec![255u8, 7u8]);
    assert_eq!(ascii(&arg).unwrap(), Some(255i64));
    // A leading zero byte is a present zero, same value as the empty case
    // but reached through a non-empty sequence.
    let arg = Some(vec![0u8, 42u8]);
    assert_eq!(ascii(&arg).unwrap(), Some(0i64));
}

#[test]
fn empty_is_distinct_from_null() {
    assert_eq!(ascii(&Some(Vec::new())).unwrap(), Some(0i64));
    assert_eq!(ascii(&None).unwrap(), None);
    assert_eq!(length(&Some(Vec::new())).unwrap(), Some(0i64));
    assert_eq!(length(&None).unwrap(), None);
}

#[test]
fn repeated_evaluation_is_identical() {
    let args: Vec<Option<Vec<u8>>> = vec![
        None,
        Some(Vec::new()),
        Some(b"-1".to_vec()),
        Some("你好".as_bytes().to_vec()),
    ];
    for sig in [ScalarFuncSig::Length, ScalarFuncSig::Ascii] {
        for arg in &args {
            let first = evaluate(sig, arg).unwrap();
            let second = evaluate(sig, arg).unwrap();
            let third = evaluate(sig, arg).unwrap();
            assert_eq!(first, second);
            assert_eq!(second, third);
        }
    }
}

#[test]
fn dispatch_matches_direct_calls() {
    let args: Vec<Option<Vec<u8>>> = vec![
        None,
        Some(Vec::new()),
        Some(b"hello".to_vec()),
        Some("Αθήνα".as_bytes().to_vec()),
    ];
    for arg in &args {
        assert_eq!(evaluate(ScalarFuncSig::Length, arg), length(arg));
        assert_eq!(evaluate(ScalarFuncSig::Ascii, arg), ascii(arg));
    }
}

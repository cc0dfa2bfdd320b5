use rustica::bytesutil::{clone_bytes, join_bytes, parse_u64_decimal, str_to_bytes, u64_to_decimal};

#[test]
fn decimal_rendering_exact() {
    assert_eq!(u64_to_decimal(0), b"0".to_vec());
    assert_eq!(u64_to_decimal(7), b"7".to_vec());
    assert_eq!(u64_to_decimal(1700000000), b"1700000000".to_vec());
    assert_eq!(u64_to_decimal(u64::MAX), b"18446744073709551615".to_vec());
}

#[test]
fn decimal_parse_exact() {
    assert_eq!(parse_u64_decimal(&b"0".to_vec()), Some(0));
    assert_eq!(parse_u64_decimal(&b"1700000005".to_vec()), Some(1700000005));
    assert_eq!(parse_u64_decimal(&b"+5".to_vec()), Some(5));
    assert_eq!(parse_u64_decimal(&b"007".to_vec()), Some(7));
    assert_eq!(parse_u64_decimal(&b"18446744073709551615".to_vec()), Some(u64::MAX));
    assert_eq!(parse_u64_decimal(&b"18446744073709551616".to_vec()), None);
    assert_eq!(parse_u64_decimal(&b"".to_vec()), None);
    assert_eq!(parse_u64_decimal(&b"+".to_vec()), None);
    assert_eq!(parse_u64_decimal(&b"12a".to_vec()), None);
    assert_eq!(parse_u64_decimal(&b"-3".to_vec()), None);
}

#[test]
fn decimal_round_trip() {
    for n in [0u64, 1, 9, 10, 4294967295, u64::MAX] {
        assert_eq!(parse_u64_decimal(&u64_to_decimal(n)), Some(n));
    }
}

#[test]
fn join_exact() {
    let items = vec![b"a".to_vec(), b"bb".to_vec(), b"".to_vec()];
    assert_eq!(join_bytes(&items, b','), b"a,bb,".to_vec());
    let one = vec![b"solo".to_vec()];
    assert_eq!(join_bytes(&one, b','), b"solo".to_vec());
    let none: Vec<Vec<u8>> = vec![];
    assert_eq!(join_bytes(&none, b','), b"".to_vec());
}

#[test]
fn ascii_literal_bytes() {
    assert_eq!(str_to_bytes("force-command"), Some(b"force-command".to_vec()));
    let copied = clone_bytes(&b"xyz".to_vec());
    assert_eq!(copied, b"xyz".to_vec());
}

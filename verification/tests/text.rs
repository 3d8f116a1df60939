use roast_core::text::{
    ascii_bytes,
    certificate_description,
    certificate_name,
    certificate_symbol,
    copy_text,
    decimal_digits,
    DESCRIPTION_KEPT,
    DESCRIPTION_LIMIT,
};

#[test]
fn name_of_a_plain_roast() {
    assert_eq!(certificate_name(95, false), b"Presidential Roast #95".to_vec());
    assert_eq!(certificate_name(0, false), b"Presidential Roast #0".to_vec());
    assert_eq!(certificate_name(7, false), b"Presidential Roast #7".to_vec());
    assert_eq!(certificate_name(100, false), b"Presidential Roast #100".to_vec());
}

#[test]
fn name_of_an_executive_order() {
    assert_eq!(
        certificate_name(100, true),
        b"Presidential Roast Executive Order #100".to_vec()
    );
    assert_eq!(certificate_name(42, true), b"Presidential Roast Executive Order #42".to_vec());
}

#[test]
fn name_agrees_with_formatting_for_every_score() {
    for score in 0..=255u8 {
        assert_eq!(
            certificate_name(score, false),
            format!("Presidential Roast #{}", score).into_bytes()
        );
        assert_eq!(
            certificate_name(score, true),
            format!("Presidential Roast Executive Order #{}", score).into_bytes()
        );
    }
}

#[test]
fn decimal_digits_have_no_leading_zeros() {
    assert_eq!(decimal_digits(0), b"0".to_vec());
    assert_eq!(decimal_digits(9), b"9".to_vec());
    assert_eq!(decimal_digits(10), b"10".to_vec());
    assert_eq!(decimal_digits(99), b"99".to_vec());
    assert_eq!(decimal_digits(100), b"100".to_vec());
    assert_eq!(decimal_digits(101), b"101".to_vec());
    assert_eq!(decimal_digits(255), b"255".to_vec());
}

#[test]
fn symbol_is_proast() {
    assert_eq!(certificate_symbol(), b"PROAST".to_vec());
}

#[test]
fn ascii_bytes_of_a_salt() {
    assert_eq!(ascii_bytes("roast"), vec![114u8, 111, 97, 115, 116]);
    assert_eq!(ascii_bytes(""), Vec::<u8>::new());
}

#[test]
fn copy_text_keeps_every_byte() {
    let text: Vec<u8> = (0..=255u8).collect();
    assert_eq!(copy_text(&text), text);
    assert_eq!(copy_text(&Vec::new()), Vec::<u8>::new());
}

#[test]
fn description_of_a_short_roast_is_the_roast() {
    let content = vec![b'a'; 150];
    assert_eq!(certificate_description(&content), content);
    assert_eq!(certificate_description(&Vec::new()), Vec::<u8>::new());
}

#[test]
fn description_at_the_limit_is_the_roast() {
    let content = vec![b'x'; DESCRIPTION_LIMIT];
    assert_eq!(certificate_description(&content), content);
}

#[test]
fn description_just_over_the_limit_is_cut() {
    let mut content = vec![b'x'; DESCRIPTION_LIMIT];
    content.push(b'y');
    let description = certificate_description(&content);
    assert_eq!(description.len(), 200);
    assert_eq!(&description[..DESCRIPTION_KEPT], &content[..197]);
    assert_eq!(&description[197..], b"...");
}

#[test]
fn description_of_a_long_roast_is_cut_to_two_hundred() {
    let content: Vec<u8> = (0..250u32).map(|i| b'a' + (i % 26) as u8).collect();
    let description = certificate_description(&content);
    let mut expected = content[..197].to_vec();
    expected.extend_from_slice(b"...");
    assert_eq!(description.len(), 200);
    assert_eq!(description, expected);
}

#[test]
fn description_may_split_a_character() {
    // 125 two-byte characters: byte 197 falls inside the 99th.
    let content = "é".repeat(125).into_bytes();
    assert_eq!(content.len(), 250);
    let description = certificate_description(&content);
    let mut expected = content[..197].to_vec();
    expected.extend_from_slice(b"...");
    assert_eq!(description, expected);
    assert!(String::from_utf8(description).is_err());
}

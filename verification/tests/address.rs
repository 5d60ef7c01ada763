use switch_pro_xy::address::replace_mac;

fn rewritten(input: &[u8], find: &[u8; 6], replace: &[u8; 6]) -> Vec<u8> {
    let mut buf = input.to_vec();
    replace_mac(&mut buf, find, replace);
    buf
}

#[test]
fn address_at_offset_three_is_replaced_in_place() {
    let out = rewritten(b"AABBBBCCDDEEFF", b"BBBCCD", b"123456");
    assert_eq!(out, b"AAB123456DEEFF".to_vec());
}

#[test]
fn payload_with_controller_address_gets_console_address() {
    let controller: [u8; 6] = [0x98, 0xb6, 0xe9, 0x01, 0x02, 0x03];
    let console: [u8; 6] = [0xdc, 0xa6, 0x32, 0x0a, 0x0b, 0x0c];
    let input: Vec<u8> = vec![
        0xa1, 0x21, 0x07, 0x98, 0xb6, 0xe9, 0x01, 0x02, 0x03, 0x55, 0x66, 0x77, 0x88, 0x99,
    ];
    let out = rewritten(&input, &controller, &console);
    assert_eq!(
        out,
        vec![0xa1, 0x21, 0x07, 0xdc, 0xa6, 0x32, 0x0a, 0x0b, 0x0c, 0x55, 0x66, 0x77, 0x88, 0x99]
    );
}

#[test]
fn short_buffer_is_left_alone() {
    assert_eq!(rewritten(b"", b"ABCDEF", b"123456"), b"".to_vec());
    assert_eq!(rewritten(b"ABCDE", b"ABCDEF", b"123456"), b"ABCDE".to_vec());
}

#[test]
fn buffer_of_exactly_one_address_is_replaced() {
    assert_eq!(rewritten(b"ABCDEF", b"ABCDEF", b"123456"), b"123456".to_vec());
}

#[test]
fn match_in_the_last_window_is_replaced() {
    assert_eq!(rewritten(b"xxABCDEF", b"ABCDEF", b"123456"), b"xx123456".to_vec());
}

#[test]
fn every_separate_match_is_replaced() {
    let out = rewritten(b"ABCDEF--ABCDEFABCDEF.", b"ABCDEF", b"123456");
    assert_eq!(out, b"123456--123456123456.".to_vec());
}

#[test]
fn buffer_without_match_is_unchanged() {
    assert_eq!(rewritten(b"ABCDEGABCDE", b"ABCDEF", b"123456"), b"ABCDEGABCDE".to_vec());
}

#[test]
fn same_address_changes_nothing() {
    assert_eq!(rewritten(b"..ABCDEF..", b"ABCDEF", b"ABCDEF"), b"..ABCDEF..".to_vec());
}

#[test]
fn second_application_without_match_is_identity() {
    let once = rewritten(b"..ABCDEF..", b"ABCDEF", b"123456");
    let twice = rewritten(&once, b"ABCDEF", b"123456");
    assert_eq!(once, b"..123456..".to_vec());
    assert_eq!(twice, once);
}

#[test]
fn overlapping_match_is_gone_once_the_first_is_replaced() {
    assert_eq!(rewritten(b"AAAAAAA", b"AAAAAA", b"BBBBBB"), b"BBBBBBA".to_vec());
}

#[test]
fn substitution_may_complete_a_later_match() {
    assert_eq!(rewritten(b"ABABABAB", b"ABABAB", b"CDABAB"), b"CDCDABAB".to_vec());
}

#[test]
fn run_of_matches_is_consumed_from_the_left() {
    let once = rewritten(b"AAAAAAAAAAAA", b"AAAAAA", b"BAAAAA");
    assert_eq!(once, b"BBBBBBBAAAAA".to_vec());
}

#[test]
fn second_application_can_change_more() {
    let once = rewritten(b"AAAAAAAAAAB", b"AAAAAB", b"BBBBBB");
    assert_eq!(once, b"AAAAABBBBBB".to_vec());
    let twice = rewritten(&once, b"AAAAAB", b"BBBBBB");
    assert_eq!(twice, b"BBBBBBBBBBB".to_vec());
}

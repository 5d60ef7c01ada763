use switch_pro_xy::report::ReportTimerRewriter;

#[test]
fn id_advances_by_elapsed_ticks() {
    let mut state = ReportTimerRewriter { enabled: true, running_id: 0x05, last_timestamp_ms: 100 };
    let mut buf: Vec<u8> = vec![0x21, 0x30, 0x00, 0x01];
    state.rewrite(&mut buf, 108);
    assert_eq!(buf, vec![0x21, 0x30, 0x07, 0x01]);
    assert_eq!(state.running_id, 0x07);
    assert_eq!(state.last_timestamp_ms, 108);
}

#[test]
fn new_channel_starts_at_zero() {
    let state = ReportTimerRewriter::new(true);
    assert_eq!(state, ReportTimerRewriter { enabled: true, running_id: 0, last_timestamp_ms: 0 });
    assert!(!ReportTimerRewriter::new(false).enabled);
}

#[test]
fn each_timed_type_is_rewritten() {
    for t in [0x30u8, 0x21, 0x31] {
        let mut state = ReportTimerRewriter::new(true);
        let mut buf: Vec<u8> = vec![0xa1, t, 0xee, 0x00, 0x99];
        assert!(state.rewrites(&buf));
        state.rewrite(&mut buf, 41);
        assert_eq!(buf, vec![0xa1, t, 10, 0x00, 0x99]);
    }
}

#[test]
fn other_type_is_untouched() {
    let mut state = ReportTimerRewriter { enabled: true, running_id: 9, last_timestamp_ms: 50 };
    let mut buf: Vec<u8> = vec![0xa1, 0x3f, 0xee, 0x00];
    assert!(!state.rewrites(&buf));
    state.rewrite(&mut buf, 500);
    assert_eq!(buf, vec![0xa1, 0x3f, 0xee, 0x00]);
    assert_eq!(state, ReportTimerRewriter { enabled: true, running_id: 9, last_timestamp_ms: 50 });
}

#[test]
fn short_report_is_untouched() {
    let mut state = ReportTimerRewriter { enabled: true, running_id: 9, last_timestamp_ms: 50 };
    let mut buf: Vec<u8> = vec![0xa1, 0x30, 0xee];
    state.rewrite(&mut buf, 500);
    assert_eq!(buf, vec![0xa1, 0x30, 0xee]);
    assert_eq!(state.last_timestamp_ms, 50);
    let mut empty: Vec<u8> = Vec::new();
    state.rewrite(&mut empty, 500);
    assert!(empty.is_empty());
}

#[test]
fn disabled_channel_rewrites_nothing() {
    let mut state = ReportTimerRewriter::new(false);
    let mut buf: Vec<u8> = vec![0x21, 0x30, 0x44, 0x01];
    state.rewrite(&mut buf, 800);
    assert_eq!(buf, vec![0x21, 0x30, 0x44, 0x01]);
    assert_eq!(state, ReportTimerRewriter { enabled: false, running_id: 0, last_timestamp_ms: 0 });
}

#[test]
fn id_wraps_at_256() {
    let mut state = ReportTimerRewriter { enabled: true, running_id: 0xfe, last_timestamp_ms: 0 };
    let mut buf: Vec<u8> = vec![0x21, 0x31, 0x00, 0x01];
    state.rewrite(&mut buf, 12);
    assert_eq!(buf[2], 0x01);
    let mut again: Vec<u8> = vec![0x21, 0x31, 0x00, 0x01];
    state.rewrite(&mut again, 12 + 4 * 256 + 3);
    assert_eq!(again[2], 0x01);
    assert_eq!(state.last_timestamp_ms, 12 + 4 * 256 + 3);
}

#[test]
fn part_of_a_tick_does_not_count() {
    let mut state = ReportTimerRewriter { enabled: true, running_id: 7, last_timestamp_ms: 10 };
    let mut buf: Vec<u8> = vec![0x21, 0x30, 0x00, 0x01];
    state.rewrite(&mut buf, 13);
    assert_eq!(buf[2], 7);
    assert_eq!(state.last_timestamp_ms, 13);
}

#[test]
fn timestamp_never_goes_back() {
    let mut state = ReportTimerRewriter { enabled: true, running_id: 7, last_timestamp_ms: 100 };
    let mut buf: Vec<u8> = vec![0x21, 0x30, 0x00, 0x01];
    state.rewrite(&mut buf, 40);
    assert_eq!(buf[2], 7);
    assert_eq!(state.last_timestamp_ms, 100);
    let mut last = state.last_timestamp_ms;
    for now in [100u64, 104, 104, 250, 249, 1000] {
        let mut b: Vec<u8> = vec![0x21, 0x30, 0x00, 0x01];
        state.rewrite(&mut b, now);
        assert!(state.last_timestamp_ms >= last);
        last = state.last_timestamp_ms;
    }
    assert_eq!(last, 1000);
    assert_eq!(state.running_id, 231);
}

#[test]
fn largest_clock_value_is_taken() {
    let mut state = ReportTimerRewriter::new(true);
    let mut buf: Vec<u8> = vec![0x21, 0x30, 0x00, 0x01];
    state.rewrite(&mut buf, u64::MAX);
    assert_eq!(state.last_timestamp_ms, u64::MAX);
    assert_eq!(buf[2], 0xff);
}

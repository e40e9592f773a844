use libopus::media::{Packet, TimeBase, TimeInfo, MAX_TERM};

#[test]
fn twenty_milliseconds_in_common_time_bases() {
    assert_eq!(TimeBase { num: 1, den: 1000 }.ticks(960, 48000), Some(20));
    assert_eq!(TimeBase { num: 1, den: 48000 }.ticks(960, 48000), Some(960));
    assert_eq!(TimeBase { num: 1, den: 90000 }.ticks(960, 48000), Some(1800));
    assert_eq!(TimeBase { num: 1, den: 1 }.ticks(960, 48000), Some(0));
    assert_eq!(TimeBase { num: 1, den: 50 }.ticks(960, 48000), Some(1));
}

#[test]
fn ticks_are_rounded_down() {
    assert_eq!(TimeBase { num: 1001, den: 30000 }.ticks(48000, 48000), Some(29));
    assert_eq!(TimeBase { num: 1001, den: 30000 }.ticks(960, 48000), Some(0));
    assert_eq!(TimeBase { num: 1, den: 1000 }.ticks(959, 48000), Some(19));
    assert_eq!(TimeBase { num: 1, den: 1000 }.ticks(47, 48000), Some(0));
    assert_eq!(TimeBase { num: 1, den: 1000 }.ticks(48, 48000), Some(1));
    assert_eq!(TimeBase { num: 3, den: 7 }.ticks(100, 9), Some(25));
    assert_eq!(TimeBase { num: 2, den: 4 }.ticks(5, 3), Some(3));
}

#[test]
fn no_samples_last_no_ticks() {
    assert_eq!(TimeBase { num: 1, den: 1000 }.ticks(0, 48000), Some(0));
    assert_eq!(TimeBase { num: 7, den: 3 }.ticks(0, 1), Some(0));
}

#[test]
fn ticks_at_the_limits() {
    assert_eq!(MAX_TERM, 2147483647);
    let max = MAX_TERM as usize;
    assert_eq!(TimeBase { num: 1, den: MAX_TERM }.ticks(max, 1), Some(4611686014132420609));
    assert_eq!(TimeBase { num: MAX_TERM, den: 1 }.ticks(max, max), Some(0));
    assert_eq!(TimeBase { num: MAX_TERM, den: MAX_TERM }.ticks(max, max), Some(1));
    assert_eq!(TimeBase { num: MAX_TERM, den: MAX_TERM }.ticks(max, 1), Some(2147483647));
}

#[test]
fn ticks_need_a_positive_time_base_within_the_limits() {
    assert_eq!(TimeBase { num: 0, den: 1000 }.ticks(960, 48000), None);
    assert_eq!(TimeBase { num: 1, den: 0 }.ticks(960, 48000), None);
    assert_eq!(TimeBase { num: -1, den: 1000 }.ticks(960, 48000), None);
    assert_eq!(TimeBase { num: 1, den: -1000 }.ticks(960, 48000), None);
    assert_eq!(TimeBase { num: MAX_TERM + 1, den: 1000 }.ticks(960, 48000), None);
    assert_eq!(TimeBase { num: 1, den: MAX_TERM + 1 }.ticks(960, 48000), None);
    assert_eq!(TimeBase { num: 1, den: 1000 }.ticks(960, 0), None);
    assert_eq!(TimeBase { num: 1, den: 1000 }.ticks(MAX_TERM as usize + 1, 48000), None);
    assert_eq!(TimeBase { num: 1, den: 1000 }.ticks(960, MAX_TERM as usize + 1), None);
}

#[test]
fn new_time_info_is_empty() {
    assert_eq!(TimeInfo::new(), TimeInfo { pts: None, dts: None, duration: None, timebase: None });
}

#[test]
fn detached_packet_belongs_to_no_stream() {
    let t = TimeInfo { pts: Some(3), dts: Some(2), duration: Some(1), timebase: None };
    let p = Packet::detached(vec![1, 2, 3], t);
    assert_eq!(p.data, vec![1, 2, 3]);
    assert_eq!(p.pos, None);
    assert_eq!(p.stream_index, -1);
    assert_eq!(p.t, t);
    assert!(!p.is_key);
    assert!(!p.is_corrupted);
}

use d2rlauncher::logger::LogSink;
use d2rlauncher::ping::{average_ping, PingReport, PingSampler, PING_ATTEMPTS};
use d2rlauncher::text::{push_decimal, push_signed_decimal};

#[test]
fn average_ping_of_replies() {
    assert_eq!(average_ping(&vec![]), None);
    assert_eq!(average_ping(&vec![30_000_000]), Some(30_000_000));
    assert_eq!(average_ping(&vec![10, 20, 31]), Some(20));
    assert_eq!(average_ping(&vec![u64::MAX, u64::MAX, u64::MAX]), Some(u64::MAX));
}

#[test]
fn log_sink_follows_terminal() {
    assert_eq!(LogSink::detect(true, false), LogSink::Stderr);
    assert_eq!(LogSink::detect(false, true), LogSink::Stderr);
    assert_eq!(LogSink::detect(false, false), LogSink::Silent);
    assert!(LogSink::Stderr.writes());
    assert!(!LogSink::Silent.writes());
}

#[test]
fn decimal_text_of_integers() {
    let mut out = String::from("n=");
    push_decimal(&mut out, 0);
    assert_eq!(out, "n=0");
    let mut out = String::new();
    push_decimal(&mut out, u64::MAX);
    assert_eq!(out, "18446744073709551615");
    let mut out = String::new();
    push_signed_decimal(&mut out, i64::MIN);
    assert_eq!(out, "-9223372036854775808");
    let mut out = String::new();
    push_signed_decimal(&mut out, 907);
    assert_eq!(out, "907");
}

#[test]
fn sampler_reports_every_third_reply_and_at_the_end() {
    let mut sampler = PingSampler::new();
    assert_eq!(sampler.record(Some(10)), PingReport::Quiet);
    assert_eq!(sampler.record(None), PingReport::Quiet);
    assert_eq!(sampler.record(Some(20)), PingReport::Quiet);
    assert_eq!(sampler.record(Some(33)), PingReport::Average(21));
    assert_eq!(sampler.record(None), PingReport::Quiet);
    let mut last = PingReport::Quiet;
    while !sampler.is_finished() {
        last = sampler.record(Some(21));
    }
    assert_eq!(sampler.attempts, PING_ATTEMPTS);
    assert_eq!(last, PingReport::Average(21));
}

#[test]
fn sampler_reports_unreachable_without_replies() {
    let mut sampler = PingSampler::new();
    for _ in 1..PING_ATTEMPTS {
        assert_eq!(sampler.record(None), PingReport::Quiet);
    }
    assert!(!sampler.is_finished());
    assert_eq!(sampler.record(None), PingReport::Unreachable);
    assert!(sampler.is_finished());
}

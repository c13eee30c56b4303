use tfserver::bench::proc::{parse_stat_times, parse_vmhwm_kb, CpuMemSampler};
use tfserver::bench::text::{chars_of, parse_u64_field, split_words};
use tfserver::bench::util::find_arg;

fn field(s: &str) -> Option<u64> {
    parse_u64_field(&s.chars().collect::<Vec<char>>())
}

#[test]
fn u64_fields() {
    assert_eq!(field("0"), Some(0));
    assert_eq!(field("12345"), Some(12345));
    assert_eq!(field("+7"), Some(7));
    assert_eq!(field("+"), None);
    assert_eq!(field(""), None);
    assert_eq!(field("-5"), None);
    assert_eq!(field("12a"), None);
    assert_eq!(field("18446744073709551615"), Some(u64::MAX));
    assert_eq!(field("18446744073709551616"), None);
    assert_eq!(field("007"), Some(7));
}

#[test]
fn words_split_on_unicode_whitespace() {
    let cs = chars_of("a\u{3000}bc  d\te\u{85}");
    assert_eq!(cs.len(), 10);
    let w = split_words(&cs, 0, cs.len());
    let got: Vec<String> = w.iter().map(|v| v.iter().collect()).collect();
    assert_eq!(got, vec!["a", "bc", "d", "e"]);
    let w2 = split_words(&cs, 2, 4);
    assert_eq!(w2.len(), 1);
    assert_eq!(w2[0], vec!['b', 'c']);
}

#[test]
fn stat_times_of_a_process() {
    let stat = "1234 (my (odd) cmd) S 1 1234 1234 0 -1 4194560 100 0 0 0 250 75 0 0 20 0 1 0 100 1000 50";
    assert_eq!(parse_stat_times(stat), Some((250, 75)));
    assert_eq!(parse_stat_times("1234 (cmd) S 1 2 3"), None);
    assert_eq!(parse_stat_times("no parenthesis here"), None);
    assert_eq!(parse_stat_times("1 (x)"), None);
    assert_eq!(parse_stat_times("1 (x)\u{e9}S 1 2 3 4 5 6 7 8 9 10 11 12 13 14"), None);
    let bad = "1 (x) S 1 2 3 4 5 6 7 8 9 10 x 12";
    assert_eq!(parse_stat_times(bad), None);
}

#[test]
fn peak_rss_of_a_process() {
    let status = "Name:\tserver\nVmPeak:\t  10000 kB\nVmHWM:\t    4321 kB\nVmRSS:\t 4000 kB\n";
    assert_eq!(parse_vmhwm_kb(status), Some(4321));
    assert_eq!(parse_vmhwm_kb("Name: x\nVmRSS: 5 kB\n"), None);
    assert_eq!(parse_vmhwm_kb("VmHWM:"), None);
    assert_eq!(parse_vmhwm_kb("VmHWM: abc kB\nVmHWM: 9 kB"), None);
    assert_eq!(parse_vmhwm_kb(" VmHWM: 9 kB\nVmHWM: 12 kB"), Some(12));
}

#[test]
fn sampler_starts_from_the_given_cpu_time() {
    let s = CpuMemSampler::start(42, Some(310));
    assert_eq!(s.pid(), 42);
    assert_eq!(s.start_jiffies(), 310);
    let z = CpuMemSampler::start(7, None);
    assert_eq!(z.start_jiffies(), 0);
    assert!(z.started_at() >= s.started_at());
}

fn args(v: &[&str]) -> Vec<String> {
    v.iter().map(|s| s.to_string()).collect()
}

#[test]
fn flag_values() {
    let a = args(&["runner", "--conns", "128", "--port=19002", "--target", "tf_enc"]);
    assert_eq!(find_arg(&a, "--conns"), Some("128".to_string()));
    assert_eq!(find_arg(&a, "--port"), Some("19002".to_string()));
    assert_eq!(find_arg(&a, "--target"), Some("tf_enc".to_string()));
    assert_eq!(find_arg(&a, "--payload"), None);
    assert_eq!(find_arg(&a, "--con"), None);
    let last = args(&["runner", "--no-spawn"]);
    assert_eq!(find_arg(&last, "--no-spawn"), None);
    let empty_value = args(&["--name=", "--name", "x"]);
    assert_eq!(find_arg(&empty_value, "--name"), Some(String::new()));
    let unicode = args(&["--é=ü€x", "--é", "no"]);
    assert_eq!(find_arg(&unicode, "--é"), Some("ü€x".to_string()));
    let first_wins = args(&["--port", "1", "--port=2"]);
    assert_eq!(find_arg(&first_wins, "--port"), Some("1".to_string()));
}

#[test]
fn flag_values_fall_back_to_defaults() {
    assert_eq!(tfserver::bench::util::arg_or(Some(64usize), 256), 64);
    assert_eq!(tfserver::bench::util::arg_or(None, 256usize), 256);
    let a = args(&["--conns", "x", "--port=19002"]);
    let conns: Option<usize> = find_arg(&a, "--conns").and_then(|v| v.parse().ok());
    assert_eq!(tfserver::bench::util::arg_or(conns, 256), 256);
    let port: Option<u16> = find_arg(&a, "--port").and_then(|v| v.parse().ok());
    assert_eq!(tfserver::bench::util::arg_or(port, 19000), 19002);
}

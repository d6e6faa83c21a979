use supervisor::clock::Instant;
use supervisor::config::{PackageIdent, RuntimeConfig};
use supervisor::decimal::{parse, render};
use supervisor::error::SupError;
use supervisor::supervisor::{StartStep, Supervisor};

fn redis() -> Supervisor {
    Supervisor::new_at(
        PackageIdent::new(String::from("core"), String::from("redis"), None, None),
        String::from("redis.default"),
        String::from("/hab/svc/redis"),
        RuntimeConfig::new(String::from("hab"), String::from("hab")),
        Instant::new(1_000),
    )
}

fn started(pid: u32) -> Supervisor {
    let mut sup = redis();
    match sup.start_at(Instant::new(2_000)) {
        StartStep::Spawn(order) => {
            sup.finish_start_at(&order, Some(pid), Instant::new(3_000)).unwrap();
        }
        StartStep::AlreadyStarted => panic!("a fresh supervisor holds no child"),
    }
    sup
}

#[test]
fn render_writes_plain_decimal() {
    assert_eq!(render(0), "0");
    assert_eq!(render(7), "7");
    assert_eq!(render(10), "10");
    assert_eq!(render(4242), "4242");
    assert_eq!(render(4294967295), "4294967295");
    assert_eq!(render(u64::MAX), "18446744073709551615");
}

#[test]
fn parse_reads_plain_decimal() {
    assert_eq!(parse("0"), Some(0));
    assert_eq!(parse("4242"), Some(4242));
    assert_eq!(parse("+17"), Some(17));
    assert_eq!(parse("007"), Some(7));
    assert_eq!(parse("4294967295"), Some(4294967295));
    assert_eq!(parse("00000000000000000004294967295"), Some(4294967295));
}

#[test]
fn parse_refuses_what_is_no_number() {
    assert_eq!(parse("4294967296"), None);
    assert_eq!(parse("99999999999999999999999999"), None);
    assert_eq!(parse("abc"), None);
    assert_eq!(parse(""), None);
    assert_eq!(parse("+"), None);
    assert_eq!(parse("++1"), None);
    assert_eq!(parse("-1"), None);
    assert_eq!(parse("-0"), None);
    assert_eq!(parse("12\n"), None);
    assert_eq!(parse(" 12"), None);
    assert_eq!(parse("1 2"), None);
    assert_eq!(parse("12a"), None);
    assert_eq!(parse("0x10"), None);
    assert_eq!(parse("1.0"), None);
    assert_eq!(parse("\u{664}\u{662}"), None);
    assert_eq!(parse("12\u{e9}"), None);
}

#[test]
fn parse_agrees_with_the_standard_parser() {
    let samples = [
        "", "0", "1", "+1", "-1", "+", "-", "00", "+00", "4294967295", "4294967296", "42949672950",
        "abc", "1a", "a1", " 1", "1 ", "1\n", "+-1", "1+", "٣", "1_000",
    ];
    for text in samples.iter() {
        assert_eq!(parse(text), text.parse::<u32>().ok(), "on {:?}", text);
    }
}

#[test]
fn render_then_parse_gives_the_number_back() {
    for pid in [0u32, 1, 9, 10, 99, 100, 137, 4242, 65535, 65536, 4294967294, 4294967295] {
        assert_eq!(parse(&render(pid as u64)), Some(pid));
        assert_eq!(render(pid as u64), pid.to_string());
    }
}

#[test]
fn pid_file_and_run_cmd_lie_in_the_service_directory() {
    let sup = redis();
    assert_eq!(sup.service_dir(), "/hab/svc/redis");
    assert_eq!(sup.pid_file(), "/hab/svc/redis/PID");
    assert_eq!(sup.run_cmd(), "/hab/svc/redis/run");
}

#[test]
fn create_pidfile_without_child_orders_nothing() {
    assert!(redis().create_pidfile().is_none());
}

#[test]
fn create_pidfile_holds_the_child_identifier() {
    let write = started(4242).create_pidfile().unwrap();
    assert_eq!(write.path, "/hab/svc/redis/PID");
    assert_eq!(write.contents, "4242");
}

#[test]
fn read_pidfile_of_abc_is_invalid() {
    assert_eq!(redis().read_pidfile("abc"), Err(SupError::InvalidPidFile));
}

#[test]
fn read_pidfile_reads_an_identifier() {
    assert_eq!(redis().read_pidfile("4242"), Ok(Some(4242)));
    assert_eq!(redis().read_pidfile("0"), Ok(Some(0)));
}

#[test]
fn read_pidfile_refuses_a_trailing_line_end_and_an_empty_file() {
    assert_eq!(redis().read_pidfile("4242\n"), Err(SupError::InvalidPidFile));
    assert_eq!(redis().read_pidfile(""), Err(SupError::InvalidPidFile));
    assert_eq!(redis().read_pidfile("4294967296"), Err(SupError::InvalidPidFile));
}

#[test]
fn pidfile_reads_back_as_the_child_after_start() {
    for pid in [1u32, 137, 4242, 4294967295] {
        let sup = started(pid);
        let write = sup.create_pidfile().unwrap();
        assert_eq!(sup.read_pidfile(&write.contents), Ok(Some(sup.child.unwrap().id())));
        assert_eq!(sup.child.unwrap().id(), pid);
    }
}

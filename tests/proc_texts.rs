use reaper::model::{is_valid_process, Process, ProcessStatus};
use reaper::procfs::{
    cmdline_text, comm_name, field_number, lifetime_cpu, parse_proc_status, parse_stat,
    parse_uptime, resident_mb, status_of, StatFields,
};

const STAT_ONE: &str = "1 (systemd) S 0 1 1 0 -1 4194560 12345 678 90 12 150 250 30 40 20 0 1 0 5 171234567 3072 18446744073709551615 1 1 0 0 0 0 671173123 4096 1260 0 0 0 17 0 0 0 0 0 0\n";
const STATM_ONE: &str = "3072 2560 1800 200 0 500 0\n";
const UPTIME: &str = "1000.50 3800.20\n";

fn init_process() -> Process {
    parse_proc_status(1, "systemd\n", "/sbin/init\0splash\0", STAT_ONE, STATM_ONE, UPTIME, 4096)
        .expect("the texts of process 1 are well formed")
}

#[test]
fn test_parse_proc_status_returns_process() {
    let proc = parse_proc_status(1, "systemd\n", "/sbin/init\0", STAT_ONE, STATM_ONE, UPTIME, 4096);
    assert!(proc.is_some(), "Function should return without error");
}

#[test]
fn test_parse_proc_status_valid_pid() {
    let proc = init_process();
    assert!(proc.pid == 1, "Parsed process should have correct PID");
}

#[test]
fn test_parse_proc_status_non_empty_name() {
    let proc = init_process();
    assert!(proc.name != "", "Parsed process should have non-empty name");
}

#[test]
fn test_parse_proc_status_valid_memory() {
    let proc = init_process();
    assert!(proc.memory_mb >= 0, "Parsed process should have non-negative memory");
}

#[test]
fn test_parse_proc_status_self() {
    let proc = init_process();
    assert!(is_valid_process(proc), "Parsed process should be valid");
}

#[test]
fn whole_process_from_texts() {
    let p = init_process();
    assert_eq!(p.name, "systemd");
    assert_eq!(p.cmdline, "/sbin/init splash");
    assert_eq!(p.memory_mb, 10);
    assert_eq!(p.cpu_usage, 39);
    assert_eq!(p.status, ProcessStatus::Sleeping);
}

#[test]
fn unreadable_texts_give_none() {
    assert!(parse_proc_status(1, "a", "", "garbage", STATM_ONE, UPTIME, 4096).is_none());
    assert!(parse_proc_status(1, "a", "", STAT_ONE, "12", UPTIME, 4096).is_none());
    assert!(parse_proc_status(1, "a", "", STAT_ONE, STATM_ONE, "1000 5", 4096).is_none());
}

#[test]
fn stat_command_name_may_hold_parentheses_and_blanks() {
    let text = "42 (my (odd) prog) R 1 1 1 0 -1 0 0 0 0 0 7 3 0 0 20 0 1 0 99 0 0";
    assert_eq!(
        parse_stat(text),
        Some(StatFields { state: 'R', utime: 7, stime: 3, start_time: 99 })
    );
    assert_eq!(parse_stat("42 no parens R 1 1"), None);
    assert_eq!(parse_stat("42 (short) R 1 2 3"), None);
    assert_eq!(parse_stat("42 (x) RR 1 1 1 0 -1 0 0 0 0 0 7 3 0 0 20 0 1 0 99 0 0"), None);
    assert_eq!(parse_stat("42 (x) R 1 1 1 0 -1 0 0 0 0 0 -7 3 0 0 20 0 1 0 99 0 0"), None);
}

#[test]
fn numbered_fields() {
    assert_eq!(field_number("  10 \t 20\n30 ", 0), Some(10));
    assert_eq!(field_number("  10 \t 20\n30 ", 2), Some(30));
    assert_eq!(field_number("10 20", 2), None);
    assert_eq!(field_number("10 2x", 1), None);
    assert_eq!(field_number("18446744073709551615", 0), Some(u64::MAX));
    assert_eq!(field_number("18446744073709551616", 0), None);
    assert_eq!(field_number("", 0), None);
}

#[test]
fn uptime_in_hundredths() {
    assert_eq!(parse_uptime(UPTIME), Some(100050));
    assert_eq!(parse_uptime("0.07 1.00"), Some(7));
    assert_eq!(parse_uptime("12.5 1.00"), None);
    assert_eq!(parse_uptime(".50 1.00"), None);
    assert_eq!(parse_uptime(""), None);
}

#[test]
fn cpu_share_over_lifetime() {
    assert_eq!(lifetime_cpu(150, 250, 5, 100050), 39);
    assert_eq!(lifetime_cpu(50, 0, 0, 100), 5000);
    assert_eq!(lifetime_cpu(300, 300, 0, 100), 10000);
    assert_eq!(lifetime_cpu(1, 1, 100, 100), 0);
    assert_eq!(lifetime_cpu(u64::MAX, u64::MAX, 0, 1), 10000);
}

#[test]
fn memory_in_megabytes() {
    assert_eq!(resident_mb(2560, 4096), 10);
    assert_eq!(resident_mb(255, 4096), 0);
    assert_eq!(resident_mb(u64::MAX, u32::MAX), i64::MAX);
}

#[test]
fn state_letters() {
    assert_eq!(status_of('R'), ProcessStatus::Running);
    assert_eq!(status_of('S'), ProcessStatus::Sleeping);
    assert_eq!(status_of('D'), ProcessStatus::Sleeping);
    assert_eq!(status_of('T'), ProcessStatus::Stopped);
    assert_eq!(status_of('t'), ProcessStatus::Stopped);
    assert_eq!(status_of('Z'), ProcessStatus::Zombie);
    assert_eq!(status_of('X'), ProcessStatus::Zombie);
}

#[test]
fn comm_and_cmdline_texts() {
    assert_eq!(comm_name("bash\n"), "bash");
    assert_eq!(comm_name("bash"), "bash");
    assert_eq!(comm_name(""), "");
    assert_eq!(cmdline_text("python3\0-m\0http.server\0"), "python3 -m http.server");
    assert_eq!(cmdline_text("a\0\0b\0\0"), "a  b");
    assert_eq!(cmdline_text(""), "");
}

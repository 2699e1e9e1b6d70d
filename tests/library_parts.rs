use ftp_paradise::client::{next_pasv_port, PASV_FIRST_PORT, PASV_PORT_END};
use ftp_paradise::config::Config;
use ftp_paradise::job_queue::{JobQueue, Next};
use ftp_paradise::thread_pool::ThreadPool;
use std::cell::Cell;
use ftp_paradise::listing::{format_list_line, list_line, ListEntry};
use ftp_paradise::session::SessionInformations;
use ftp_paradise::text::{parse_i32, split_at_char, str_equals, trim};

fn entry(name: &str) -> ListEntry {
    ListEntry {
        is_dir: true,
        mode: 0o755,
        owner: "root".to_string(),
        group: "wheel".to_string(),
        size: 4096,
        modified_secs: 1_700_000_000,
        modified_nanos: 0,
        name: name.to_string(),
    }
}

#[test]
fn config_accepts_dotted_host() {
    let c = Config::new("127.0.0.1".to_string(), "2121".to_string());
    assert_eq!(c.check(), Ok(()));
    assert_eq!(c.get_hostname(), "127.0.0.1");
    assert_eq!(c.get_port(), "2121");
}

#[test]
fn config_errors() {
    let c = Config::new("127.0.1".to_string(), "21".to_string());
    assert_eq!(c.check(), Err("invalid number of decimal in hostname"));
    let c = Config::new("127.0.x.1".to_string(), "21".to_string());
    assert_eq!(c.check(), Err("invalid format in hostname"));
    let c = Config::new("127.0.0.1".to_string(), "port".to_string());
    assert_eq!(c.check(), Err("invalid port format"));
    let c = Config::new("300.0.0.1".to_string(), "21".to_string());
    assert_eq!(c.check(), Err("invalid format in hostname"));
    let c = Config::new("-1.0.0.0".to_string(), "21".to_string());
    assert_eq!(c.check(), Err("invalid format in hostname"));
    let c = Config::new("255.255.255.0".to_string(), "21".to_string());
    assert_eq!(c.check(), Ok(()));
}

#[test]
fn parsing_numbers() {
    assert_eq!(parse_i32("8"), Some(8));
    assert_eq!(parse_i32("+17"), Some(17));
    assert_eq!(parse_i32("-2147483648"), Some(i32::MIN));
    assert_eq!(parse_i32("2147483647"), Some(i32::MAX));
    assert_eq!(parse_i32("2147483648"), None);
    assert_eq!(parse_i32("99999999999x"), None);
    assert_eq!(parse_i32("-"), None);
    assert_eq!(parse_i32(""), None);
    assert_eq!(parse_i32("1 "), None);
}

#[test]
fn splitting_and_equality() {
    assert_eq!(split_at_char("a..b", '.'), vec!["a".to_string(), "".to_string(), "b".to_string()]);
    assert_eq!(split_at_char("", '.'), vec!["".to_string()]);
    assert!(str_equals("UTF8", "UTF8"));
    assert!(!str_equals("UTF8", "UTF"));
}

#[test]
fn session_password() {
    let mut s = SessionInformations::new("ann".to_string(), None);
    assert_eq!(s.get_username(), "ann");
    assert_eq!(s.get_password(), None);
    s.set_password("pw".to_string());
    assert_eq!(s.get_password(), Some("pw"));
    assert_eq!(s.get_username(), "ann");
}

#[test]
fn listing_line_layout() {
    let mut e = entry("docs");
    assert_eq!(format_list_line(&e, "Nov 14 22:13"), "drwxr-xr-x root wheel  4096 Nov 14 22:13 docs\r\n");
    e.is_dir = false;
    e.mode = 0o640;
    e.size = 123456;
    assert_eq!(format_list_line(&e, "Jan 01 00:00"), "-rw-r----- root wheel 123456 Jan 01 00:00 docs\r\n");
}

#[test]
fn listing_line_with_local_time() {
    let line = list_line(&entry("notes.txt")).unwrap();
    assert!(line.starts_with("drwxr-xr-x root wheel  4096 "));
    assert!(line.ends_with(" notes.txt\r\n"));
    assert_eq!(line.len(), "drwxr-xr-x root wheel  4096 ".len() + 12 + " notes.txt\r\n".len());
    assert_eq!(list_line(&ListEntry { modified_secs: i64::MAX, ..entry("x") }), None);
    assert!(list_line(&ListEntry { modified_secs: -8_000_000_000_000, ..entry("x") }).is_some());
    assert!(list_line(&ListEntry { modified_secs: 8_000_000_000_000, modified_nanos: 999_999_999, ..entry("x") }).is_some());
}

#[test]
fn pool_size_zero_is_rejected() {
    let started = Cell::new(0);
    let r = ThreadPool::build(0, |id| {
        started.set(started.get() + 1);
        id
    });
    assert_eq!(r.err(), Some("invalid size".to_string()));
    assert_eq!(started.get(), 0);
}

#[test]
fn pool_starts_each_worker_once() {
    let started = Cell::new(0);
    let mut pool = ThreadPool::build(4, |id| {
        started.set(started.get() + 1);
        id * 10
    })
    .unwrap();
    assert_eq!(started.get(), 4);
    assert_eq!(pool.size(), 4);
    assert_eq!(pool.take_workers(), vec![0, 10, 20, 30]);
    assert_eq!(pool.size(), 0);
}

#[test]
fn queue_hands_out_each_job_once_in_order() {
    let mut q: JobQueue<u32> = JobQueue::new();
    for j in 0..5u32 {
        assert_eq!(q.push(j), Ok(()));
    }
    assert_eq!(q.len(), 5);
    q.close();
    assert!(q.is_closed());
    assert_eq!(q.push(9), Err(9));
    let mut seen = Vec::new();
    loop {
        match q.next() {
            Next::Run(j) => seen.push(j),
            Next::Wait => panic!("a closed queue never asks to wait"),
            Next::Exit => break,
        }
    }
    assert_eq!(seen, vec![0, 1, 2, 3, 4]);
    assert!(matches!(q.next(), Next::Exit));
}

#[test]
fn open_empty_queue_waits() {
    let mut q: JobQueue<u32> = JobQueue::new();
    assert!(matches!(q.next(), Next::Wait));
    q.push(3).unwrap();
    assert!(matches!(q.next(), Next::Run(3)));
}

#[test]
fn trimming_white_space() {
    assert_eq!(trim("  PWD \r\n"), "PWD");
    assert_eq!(trim("\u{3000}a b\u{85}\t"), "a b");
    assert_eq!(trim(" \r\n "), "");
    assert_eq!(trim("x"), "x");
    assert_eq!(trim("\u{200B}x"), "\u{200B}x");
}

#[test]
fn pasv_port_search_order() {
    assert_eq!(next_pasv_port(None), Some(PASV_FIRST_PORT));
    assert_eq!(next_pasv_port(Some(7000)), Some(7001));
    assert_eq!(next_pasv_port(Some(65533)), Some(65534));
    assert_eq!(next_pasv_port(Some(65534)), None);
    assert_eq!(PASV_PORT_END, 65535);
}

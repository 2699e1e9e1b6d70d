use ftp_paradise::cli::{parse_args, Invocation};

fn words(w: &[&str]) -> Vec<String> {
    w.iter().map(|s| s.to_string()).collect()
}

#[test]
fn host_and_port_are_read() {
    match parse_args(&words(&["ftp", "--hostname", "127.0.0.1", "-p", "2121", "extra"])) {
        Ok(Invocation::Serve(c)) => {
            assert_eq!(c.get_hostname(), "127.0.0.1");
            assert_eq!(c.get_port(), "2121");
        }
        _ => panic!("expected a configuration"),
    }
}

#[test]
fn later_values_win_and_trailing_option_keeps_earlier() {
    match parse_args(&words(&["ftp", "-h", "1.1.1.1", "-p", "21", "-h", "2.2.2.2", "-p"])) {
        Ok(Invocation::Serve(c)) => {
            assert_eq!(c.get_hostname(), "2.2.2.2");
            assert_eq!(c.get_port(), "21");
        }
        _ => panic!("expected a configuration"),
    }
}

#[test]
fn command_line_errors() {
    assert!(matches!(parse_args(&words(&["ftp"])), Err("no hostname specified")));
    assert!(matches!(parse_args(&words(&[])), Err("no hostname specified")));
    assert!(matches!(parse_args(&words(&["ftp", "-h", "1.2.3.4"])), Err("no port specified")));
    assert!(matches!(
        parse_args(&words(&["ftp", "--hostname"])),
        Err("no hostname specified after --hostname argument")
    ));
    assert!(matches!(
        parse_args(&words(&["ftp", "-h", "1.2.3.4", "--port"])),
        Err("no port number specified after --port argument")
    ));
}

#[test]
fn version_request() {
    assert!(matches!(parse_args(&words(&["ftp", "-v"])), Ok(Invocation::ShowVersion)));
    assert!(matches!(parse_args(&words(&["ftp", "-h", "x", "--version", "-p"])), Ok(Invocation::ShowVersion)));
}

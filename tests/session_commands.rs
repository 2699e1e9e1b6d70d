use ftp_paradise::client::{
    format_reply, list_reply, pasv_reply, resolve, FtpClient, ListStatus, PathCheck, Step,
};
use ftp_paradise::commands::{CommandResult, CommandReturnType};
use ftp_paradise::config::Config;
use ftp_paradise::options::{DataType, ListenMode};
use ftp_paradise::protocol::{
    greeting, not_implemented, parse_request, transfer_complete, transfer_starting, Command,
};

fn args(words: &[&str]) -> Vec<String> {
    words.iter().map(|w| w.to_string()).collect()
}

fn code_of(r: &CommandResult<u16>) -> i32 {
    match r {
        Ok((c, _, _, _)) => *c,
        Err((c, _)) => *c,
    }
}

fn message_of(r: &CommandResult<u16>) -> String {
    match r {
        Ok((_, m, _, _)) => m.clone(),
        Err((_, m)) => m.clone(),
    }
}

fn local_config() -> Config {
    Config::new("192.168.1.20".to_string(), "2121".to_string())
}

#[test]
fn new_session_defaults() {
    let c: FtpClient<u16> = FtpClient::build();
    let o = c.get_options();
    assert_eq!(o.working_directory, "/");
    assert_eq!(o.data_representation, DataType::ASCII);
    assert_eq!(o.local_bytes, 0);
    assert_eq!(o.listen_mode, ListenMode::Active);
    assert!(o.session.is_none());
    assert!(c.data_listener.is_none());
}

#[test]
fn user_joins_and_trims_arguments() {
    let mut c: FtpClient<u16> = FtpClient::build();
    let r = c.exec_user_command(&args(&["", "John", "Smith"]));
    assert_eq!(code_of(&r), 230);
    assert_eq!(message_of(&r), "user connected");
    let s = c.get_options().session.as_ref().unwrap();
    assert_eq!(s.get_username(), "John Smith");
    assert_eq!(s.get_password(), None);
}

#[test]
fn user_clears_previous_password() {
    let mut c: FtpClient<u16> = FtpClient::build();
    c.exec_user_command(&args(&["alice"]));
    let mut s = ftp_paradise::session::SessionInformations::new("alice".to_string(), None);
    s.set_password("SECRET-REDACTED".to_string());
    c.set_session(s);
    assert!(c.get_options().session.as_ref().unwrap().get_password().is_some());
    c.exec_user_command(&args(&["bob"]));
    let s = c.get_options().session.as_ref().unwrap();
    assert_eq!(s.get_username(), "bob");
    assert_eq!(s.get_password(), None);
}

#[test]
fn syst_and_feat() {
    let c: FtpClient<u16> = FtpClient::build();
    let r = c.exec_syst_command(&args(&[]));
    assert_eq!(code_of(&r), 215);
    assert_eq!(message_of(&r), "UNIX Type: L8");
    let f = c.exec_feat_command(&args(&[]));
    assert_eq!(code_of(&f), 211);
    assert!(matches!(f, Ok((_, _, true, CommandReturnType::Empty))));
    assert_eq!(message_of(&f), "-Features\r\nUTF8");
}

#[test]
fn opts_replies() {
    let c: FtpClient<u16> = FtpClient::build();
    let none = c.exec_opts_command(&args(&[]));
    assert!(none.is_err());
    assert_eq!(code_of(&none), 501);
    let utf8 = c.exec_opts_command(&args(&["UTF8"]));
    assert!(utf8.is_ok());
    assert_eq!(code_of(&utf8), 202);
    let foo = c.exec_opts_command(&args(&["FOO"]));
    assert!(foo.is_err());
    assert_eq!(code_of(&foo), 504);
}

#[test]
fn pwd_quotes_directory() {
    let c: FtpClient<u16> = FtpClient::build();
    let r = c.exec_pwd_command(&args(&[]));
    assert_eq!(code_of(&r), 257);
    assert_eq!(message_of(&r), "\"/\"");
}

#[test]
fn type_codes() {
    let mut c: FtpClient<u16> = FtpClient::build();
    let missing = c.exec_type_command(&args(&["L"]));
    assert_eq!(code_of(&missing), 501);
    assert!(missing.is_err());
    assert_eq!(c.get_options().data_representation, DataType::ASCII);
    let l8 = c.exec_type_command(&args(&["L", "8"]));
    assert_eq!(code_of(&l8), 200);
    assert!(l8.is_ok());
    assert_eq!(c.get_options().data_representation, DataType::Local);
    assert_eq!(c.get_options().local_bytes, 8);
    let z = c.exec_type_command(&args(&["Z"]));
    assert_eq!(code_of(&z), 504);
    assert_eq!(c.get_options().data_representation, DataType::Local);
}

#[test]
fn type_other_codes_and_bad_size() {
    let mut c: FtpClient<u16> = FtpClient::build();
    assert_eq!(code_of(&c.exec_type_command(&args(&[]))), 501);
    assert_eq!(code_of(&c.exec_type_command(&args(&["I"]))), 200);
    assert_eq!(c.get_options().data_representation, DataType::Image);
    assert_eq!(code_of(&c.exec_type_command(&args(&["E"]))), 200);
    assert_eq!(c.get_options().data_representation, DataType::EBCDIC);
    assert_eq!(code_of(&c.exec_type_command(&args(&["L", "x8"]))), 501);
    assert_eq!(c.get_options().data_representation, DataType::EBCDIC);
    assert_eq!(code_of(&c.exec_type_command(&args(&["A"]))), 200);
    assert_eq!(c.get_options().data_representation, DataType::ASCII);
}

#[test]
fn pasv_reply_encodes_host_and_port() {
    assert_eq!(pasv_reply("192.168.1.20", 7000), "Entering passive mode (192,168,1,20,27,88)");
    assert_eq!(pasv_reply("10.0.0.1", 65534), "Entering passive mode (10,0,0,1,255,254)");
}

#[test]
fn pasv_then_list_consumes_listener() {
    let mut c: FtpClient<u16> = FtpClient::build();
    let cfg = local_config();
    let r = c.exec_pasv_command(&cfg, Some((42, 7001)));
    assert_eq!(code_of(&r), 227);
    assert_eq!(message_of(&r), "Entering passive mode (192,168,1,20,27,89)");
    assert_eq!(c.get_options().listen_mode, ListenMode::Passive);
    let reply = c.complete_command(r);
    assert_eq!(reply, "227 Entering passive mode (192,168,1,20,27,89)\r\n");
    assert_eq!(c.data_listener, Some(42));
    assert_eq!(c.exec_list_command(&args(&[])), Ok(42));
    assert!(c.data_listener.is_none());
    let done = list_reply::<u16>(ListStatus::Sent);
    assert_eq!(code_of(&done), 250);
    assert_eq!(message_of(&done), "ok");
    let again = c.exec_list_command(&args(&[]));
    assert_eq!(again, Err((425, "cannot open data connection".to_string())));
}

#[test]
fn pasv_without_port_fails() {
    let mut c: FtpClient<u16> = FtpClient::build();
    let r = c.exec_pasv_command(&local_config(), None);
    assert_eq!(code_of(&r), 425);
    assert!(r.is_err());
    assert!(c.data_listener.is_none());
}

#[test]
fn list_endings() {
    assert_eq!(code_of(&list_reply::<u16>(ListStatus::DirectoryUnreadable)), 550);
    assert_eq!(code_of(&list_reply::<u16>(ListStatus::AcceptFailed)), 425);
}

#[test]
fn cwd_resolution() {
    assert_eq!(resolve("/", ".."), "/");
    assert_eq!(resolve("/a", "sub"), "/a/sub");
    assert_eq!(resolve("/a/", "sub/"), "/a/sub");
    assert_eq!(resolve("/a/b", ".."), "/a");
    assert_eq!(resolve("/a", ".."), "/");
    assert_eq!(resolve("/a", "/etc/"), "/etc/");
}

#[test]
fn cwd_commands() {
    let mut c: FtpClient<u16> = FtpClient::build();
    let up = c.exec_cwd_command(&args(&[".."]), PathCheck::Found);
    assert_eq!(code_of(&up), 250);
    assert_eq!(c.get_options().working_directory, "/");
    assert_eq!(c.cwd_target(&args(&["a"])), Some("/a".to_string()));
    assert_eq!(code_of(&c.exec_cwd_command(&args(&["a"]), PathCheck::Found)), 250);
    assert_eq!(c.get_options().working_directory, "/a");
    assert_eq!(c.cwd_target(&args(&["sub"])), Some("/a/sub".to_string()));
    assert_eq!(code_of(&c.exec_cwd_command(&args(&["sub"]), PathCheck::Found)), 250);
    assert_eq!(c.get_options().working_directory, "/a/sub");
    let missing = c.exec_cwd_command(&args(&["nope"]), PathCheck::Missing);
    assert_eq!(code_of(&missing), 550);
    assert_eq!(message_of(&missing), "/a/sub/nope inexistant path");
    assert_eq!(c.get_options().working_directory, "/a/sub");
    assert_eq!(code_of(&c.exec_cwd_command(&args(&["x"]), PathCheck::Failed)), 450);
    assert_eq!(code_of(&c.exec_cwd_command(&args(&[]), PathCheck::Found)), 501);
    assert_eq!(c.cwd_target(&args(&[])), None);
    assert_eq!(c.cdup_target(), "/a");
    assert_eq!(code_of(&c.exec_cdup_command(PathCheck::Found)), 250);
    assert_eq!(c.get_options().working_directory, "/a");
}

#[test]
fn reply_framing() {
    assert_eq!(format_reply(257, "\"/\"", false), "257 \"/\"\r\n");
    assert_eq!(format_reply(211, "-Features\r\nUTF8", true), "211--Features\r\nUTF8\r\n211 End\r\n");
    assert_eq!(format_reply(-5, "x", false), "-5 x\r\n");
    assert_eq!(greeting(), "220 ready\r\n");
    let mut c: FtpClient<u16> = FtpClient::build();
    assert_eq!(c.complete_command(not_implemented()), "502 no implementation\r\n");
}

#[test]
fn request_parsing() {
    let r = parse_request("  pwd \r\n");
    assert_eq!(r.command, Command::Pwd);
    assert!(r.args.is_empty());
    let r = parse_request("user John  Smith\r\n");
    assert_eq!(r.command, Command::User);
    assert_eq!(r.args, vec!["John".to_string(), "".to_string(), "Smith".to_string()]);
    assert_eq!(parse_request("Type L 8").command, Command::Type);
    assert_eq!(parse_request("cdup").command, Command::Cdup);
    assert_eq!(parse_request("XYZ").command, Command::Unknown);
    assert_eq!(parse_request("").command, Command::Unknown);
}

#[test]
fn session_scenario() {
    let cfg = local_config();
    let mut c: FtpClient<u16> = FtpClient::build();
    assert_eq!(greeting(), "220 ready\r\n");
    let req = parse_request("PWD\r\n");
    assert_eq!(req.command, Command::Pwd);
    let r = c.exec_pwd_command(&req.args);
    assert_eq!(c.complete_command(r), "257 \"/\"\r\n");
    let req = parse_request("CWD missing_dir\r\n");
    assert_eq!(req.command, Command::Cwd);
    assert_eq!(c.cwd_target(&req.args), Some("/missing_dir".to_string()));
    let r = c.exec_cwd_command(&req.args, PathCheck::Missing);
    assert!(c.complete_command(r).starts_with("550 "));
    let req = parse_request("PASV\r\n");
    assert_eq!(req.command, Command::Pasv);
    let r = c.exec_pasv_command(&cfg, Some((1, 7000)));
    assert_eq!(c.complete_command(r), "227 Entering passive mode (192,168,1,20,27,88)\r\n");
    let req = parse_request("LIST\r\n");
    assert_eq!(req.command, Command::List);
    assert_eq!(c.exec_list_command(&req.args), Ok(1));
    assert_eq!(transfer_starting(), "150 ok\r\n");
    assert_eq!(transfer_complete(), "226 closing data connection\r\n");
    let r = list_reply::<u16>(ListStatus::Sent);
    assert_eq!(c.complete_command(r), "250 ok\r\n");
}

#[test]
fn dispatch_steps() {
    let mut c: FtpClient<u16> = FtpClient::build();
    match c.dispatch(&parse_request("opts utf8")) {
        Step::Done(r) => assert_eq!(code_of(&r), 504),
        _ => panic!("OPTS needs nothing from outside"),
    }
    match c.dispatch(&parse_request("OPTS UTF8")) {
        Step::Done(r) => assert_eq!(code_of(&r), 202),
        _ => panic!("OPTS needs nothing from outside"),
    }
    match c.dispatch(&parse_request("LIST")) {
        Step::Done(r) => assert_eq!(code_of(&r), 425),
        _ => panic!("LIST without PASV fails at once"),
    }
    assert!(matches!(c.dispatch(&parse_request("pasv")), Step::BindDataListener));
    let r = c.exec_pasv_command(&local_config(), Some((5, 7002)));
    c.complete_command(r);
    match c.dispatch(&parse_request("LIST")) {
        Step::SendListing(l, dir) => {
            assert_eq!(l, 5);
            assert_eq!(dir, "/");
        }
        _ => panic!("LIST after PASV sends the listing"),
    }
    assert!(c.data_listener.is_none());
    match c.dispatch(&parse_request("CWD docs")) {
        Step::CheckPath(p) => {
            assert_eq!(p, "/docs");
            assert_eq!(code_of(&c.change_directory(p, PathCheck::Found)), 250);
        }
        _ => panic!("CWD checks its path"),
    }
    match c.dispatch(&parse_request("CDUP")) {
        Step::CheckPath(p) => assert_eq!(p, "/"),
        _ => panic!("CDUP checks its path"),
    }
    match c.dispatch(&parse_request("CWD")) {
        Step::Done(r) => assert_eq!(code_of(&r), 501),
        _ => panic!("CWD without a path fails at once"),
    }
    match c.dispatch(&parse_request("NOOP")) {
        Step::Done(r) => assert_eq!(code_of(&r), 502),
        _ => panic!("unknown verbs are not implemented"),
    }
    match c.dispatch(&parse_request("TYPE L 16")) {
        Step::Done(r) => assert_eq!(code_of(&r), 200),
        _ => panic!("TYPE needs nothing from outside"),
    }
    assert_eq!(c.get_options().local_bytes, 16);
}

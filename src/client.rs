//! One control connection's command handlers. The client is generic over
//! the listener type `L` of the data channel: a handler never touches the
//! network itself, it only arms, hands out and forgets listeners.
use vstd::prelude::*;

use crate::commands::{
    done, fail, failed, no_resource, reply_of, succeed, CommandResult, CommandReturnType,
};
use crate::config::Config;
use crate::options::{ClientOptions, DataType, ListenMode};
use crate::protocol::{not_implemented, Command, Request};
use crate::session::SessionInformations;
use crate::text::{
    dec_digits, dec_int, parse_i32, push_int, parse_i32_spec, push_char, push_decimal, push_replaced, replace_char,
    str_equals, trim, trim_of, views,
};

verus! {

/// The state of one control connection: its settings and the data listener
/// that the last passive-mode command armed, until a transfer takes it.
pub struct FtpClient<L> {
    pub options: ClientOptions,
    pub data_listener: Option<L>,
}

/// The user name that USER builds from its arguments before trimming: each
/// argument followed by a space.
pub open spec fn joined_args(args: Seq<Seq<char>>) -> Seq<char>
    decreases args.len(),
{
    if args.len() == 0 {
        Seq::empty()
    } else {
        joined_args(args.drop_last()) + args.last() + seq![' ']
    }
}

/// The reply to OPTS.
pub open spec fn opts_reply(args: Seq<Seq<char>>) -> (bool, int, Seq<char>, bool) {
    if args.len() == 0 {
        failed(501, "Syntax error in arguments"@)
    } else if args[0] == "UTF8"@ {
        done(202, "UTF8 mode is always ON"@)
    } else {
        failed(504, "command not implemented for this option"@)
    }
}

/// What TYPE asks for: a representation and, for `L`, a byte size; or the
/// failure code and message.
pub open spec fn type_request(args: Seq<Seq<char>>) -> Result<(DataType, Option<i32>), (int, Seq<char>)> {
    if args.len() == 0 {
        Err((501, "Syntax error in arguments"@))
    } else if args[0] == "A"@ {
        Ok((DataType::ASCII, None))
    } else if args[0] == "E"@ {
        Ok((DataType::EBCDIC, None))
    } else if args[0] == "I"@ {
        Ok((DataType::Image, None))
    } else if args[0] == "L"@ {
        if args.len() < 2 {
            Err((501, "Syntax error in arguments"@))
        } else {
            match parse_i32_spec(args[1]) {
                Some(v) => Ok((DataType::Local, Some(v))),
                None => Err((501, "Syntax error in arguments"@)),
            }
        }
    } else {
        Err((504, "command not implemented for this option"@))
    }
}

/// The reply text of a successful PASV for a host and a bound port:
/// the host's dots become commas, then the port's high and low bytes.
pub open spec fn pasv_message(host: Seq<char>, port: nat) -> Seq<char> {
    "Entering passive mode ("@ + replace_char(host, '.', ',') + seq![','] + dec_digits(port / 256)
        + seq![','] + dec_digits(port % 256) + seq![')']
}

/// `s` without the `c` characters at its end.
pub open spec fn strip_trailing(s: Seq<char>, c: char) -> Seq<char>
    decreases s.len(),
{
    if s.len() > 0 && s.last() == c {
        strip_trailing(s.drop_last(), c)
    } else {
        s
    }
}

/// The position of the last `c` in `s`.
pub open spec fn last_index_of(s: Seq<char>, c: char) -> Option<int>
    decreases s.len(),
{
    if s.len() == 0 {
        None
    } else if s.last() == c {
        Some(s.len() - 1)
    } else {
        last_index_of(s.drop_last(), c)
    }
}

/// The directory that CWD `path` names from `cwd`: an absolute path as it
/// is; `..` the parent of `cwd`, and the root at the root; any other path
/// appended to `cwd`, with trailing separators stripped before and after.
pub open spec fn resolve_path(cwd: Seq<char>, path: Seq<char>) -> Seq<char> {
    if path.len() > 0 && path[0] == '/' {
        path
    } else {
        let wd = strip_trailing(cwd, '/');
        if path == ".."@ {
            match last_index_of(wd, '/') {
                Some(i) => if i > 0 { wd.subrange(0, i) } else { "/"@ },
                None => "/"@,
            }
        } else {
            strip_trailing(wd + seq!['/'] + path, '/')
        }
    }
}

/// The first port tried for a passive-mode data listener; ports are tried
/// upward from it.
pub const PASV_FIRST_PORT: u16 = 7000;

/// The end (excluded) of the ports tried for a data listener.
pub const PASV_PORT_END: u16 = 65535;

/// The ports tried for a data listener, upward from the first: the first
/// port to begin with, then the one after the last tried, until the end of
/// the range.
pub open spec fn next_pasv_port_spec(previous: Option<u16>) -> Option<u16> {
    match previous {
        None => Some(PASV_FIRST_PORT),
        Some(p) => if p + 1 < PASV_PORT_END { Some((p + 1) as u16) } else { None },
    }
}

/// The next port to try for a data listener after `previous`, or nothing
/// once the range is used up.
pub fn next_pasv_port(previous: Option<u16>) -> (r: Option<u16>)
    ensures
        r == next_pasv_port_spec(previous),
{
    match previous {
        None => Some(PASV_FIRST_PORT),
        Some(p) => if p < PASV_PORT_END - 1 { Some(p + 1) } else { None },
    }
}

/// What a check for a directory's existence found.
#[derive(Clone, Copy, Debug, PartialEq, Eq, Structural)]
pub enum PathCheck {
    Found,
    Missing,
    Failed,
}

/// How the transfer of a LIST ended, after its listener was taken.
#[derive(Clone, Copy, Debug, PartialEq, Eq, Structural)]
pub enum ListStatus {
    /// The working directory could not be read.
    DirectoryUnreadable,
    /// No data connection could be accepted.
    AcceptFailed,
    /// The listing was sent.
    Sent,
}

/// Removes the trailing `c` characters of `s`.
fn strip_trailing_exec(s: &str, c: char) -> (r: String)
    ensures
        r@ == strip_trailing(s@, c),
{
    let n = s.unicode_len();
    let mut end: usize = n;
    assert(s@.subrange(0, n as int) =~= s@);
    while end > 0 && s.get_char(end - 1) == c
        invariant
            end <= n,
            n == s@.len(),
            strip_trailing(s@.subrange(0, end as int), c) == strip_trailing(s@, c),
        decreases end,
    {
        let ghost cur = s@.subrange(0, end as int);
        assert(cur.drop_last() =~= s@.subrange(0, end - 1));
        end = end - 1;
    }
    proof {
        let cur = s@.subrange(0, end as int);
        if end > 0 {
            assert(cur.last() == s@[end - 1]);
        }
    }
    String::from_str(s.substring_char(0, end))
}

/// Finds the last `c` of `s`.
fn last_index_exec(s: &str, c: char) -> (r: Option<usize>)
    ensures
        match r {
            Some(i) => last_index_of(s@, c) == Some(i as int),
            None => last_index_of(s@, c) is None,
        },
{
    let n = s.unicode_len();
    let mut end: usize = n;
    assert(s@.subrange(0, n as int) =~= s@);
    while end > 0
        invariant
            end <= n,
            n == s@.len(),
            last_index_of(s@.subrange(0, end as int), c) == last_index_of(s@, c),
        decreases end,
    {
        let ghost cur = s@.subrange(0, end as int);
        assert(cur.drop_last() =~= s@.subrange(0, end - 1));
        if s.get_char(end - 1) == c {
            return Some(end - 1);
        }
        end = end - 1;
    }
    None
}

/// Works out the directory CWD `path` names from `cwd`.
pub fn resolve(cwd: &str, path: &str) -> (r: String)
    ensures
        r@ == resolve_path(cwd@, path@),
{
    if path.unicode_len() > 0 && path.get_char(0) == '/' {
        return String::from_str(path);
    }
    let wd = strip_trailing_exec(cwd, '/');
    if str_equals(path, "..") {
        match last_index_exec(wd.as_str(), '/') {
            Some(i) => {
                if i > 0 {
                    proof {
                        lemma_last_index_in_range(wd@, '/');
                    }
                    String::from_str(wd.as_str().substring_char(0, i))
                } else {
                    String::from_str("/")
                }
            },
            None => String::from_str("/"),
        }
    } else {
        let mut joined = wd;
        push_char(&mut joined, '/');
        joined.append(path);
        assert(joined@ =~= strip_trailing(cwd@, '/') + seq!['/'] + path@);
        strip_trailing_exec(joined.as_str(), '/')
    }
}

proof fn lemma_last_index_in_range(s: Seq<char>, c: char)
    ensures
        last_index_of(s, c) matches Some(i) ==> 0 <= i < s.len(),
    decreases s.len(),
{
    if s.len() > 0 && s.last() != c {
        lemma_last_index_in_range(s.drop_last(), c);
    }
}

impl<L> FtpClient<L> {
    /// The session's settings.
    pub open spec fn options_view(&self) -> ClientOptions {
        self.options
    }

    /// The working directory.
    pub open spec fn cwd(&self) -> Seq<char> {
        self.options_view().working_directory@
    }

    /// A new session: at the root, ASCII representation, active mode, nobody
    /// logged in and no data channel armed.
    pub fn build() -> (r: FtpClient<L>)
        ensures
            r.cwd() == "/"@,
            r.options_view().data_representation == DataType::ASCII,
            r.options_view().local_bytes == 0,
            r.options_view().listen_mode == ListenMode::Active,
            r.options_view().session is None,
            r.data_listener is None,
    {
        FtpClient {
            options: ClientOptions {
                session: None,
                working_directory: String::from_str("/"),
                data_representation: DataType::ASCII,
                local_bytes: 0,
                listen_mode: ListenMode::Active,
            },
            data_listener: None,
        }
    }

    pub fn get_options(&self) -> (r: &ClientOptions)
        ensures
            *r == self.options_view(),
    {
        &self.options
    }

    /// Logs `session` in, in place of whoever was.
    pub fn set_session(&mut self, session: SessionInformations)
        ensures
            final(self).options_view() == (ClientOptions {
                session: Some(session),
                ..old(self).options_view()
            }),
            final(self).data_listener == old(self).data_listener,
    {
        self.options.session = Some(session);
    }

    /// USER: the arguments, joined by spaces, become the user name, with no
    /// password yet.
    pub fn exec_user_command(&mut self, args: &Vec<String>) -> (r: CommandResult<L>)
        ensures
            user_effect(*old(self), *final(self), views(args@), r),
    {
        let mut username = String::new();
        let mut i: usize = 0;
        while i < args.len()
            invariant
                i <= args.len(),
                username@ == joined_args(views(args@).subrange(0, i as int)),
            decreases args.len() - i,
        {
            let ghost before = username@;
            username.append(args[i].as_str());
            push_char(&mut username, ' ');
            assert(views(args@).subrange(0, i + 1).drop_last() =~= views(args@).subrange(0, i as int));
            i = i + 1;
        }
        assert(views(args@).subrange(0, args.len() as int) =~= views(args@));
        let name = trim(username.as_str());
        self.set_session(SessionInformations::new(name, None));
        succeed(230, "user connected")
    }

    /// SYST: the system type.
    pub fn exec_syst_command(&self, _args: &Vec<String>) -> (r: CommandResult<L>)
        ensures
            reply_of(r) == done(215, "UNIX Type: L8"@),
            no_resource(r),
    {
        succeed(215, "UNIX Type: L8")
    }

    /// FEAT: the list of extensions, as a multiline reply.
    pub fn exec_feat_command(&self, _args: &Vec<String>) -> (r: CommandResult<L>)
        ensures
            reply_of(r) == (true, 211int, "-Features\r\nUTF8"@, true),
            no_resource(r),
    {
        Ok((211, String::from_str("-Features\r\nUTF8"), true, CommandReturnType::Empty))
    }

    /// OPTS: only `UTF8` is known, and always on.
    pub fn exec_opts_command(&self, args: &Vec<String>) -> (r: CommandResult<L>)
        ensures
            reply_of(r) == opts_reply(views(args@)),
            no_resource(r),
    {
        if args.len() == 0 {
            return fail(501, "Syntax error in arguments");
        }
        assert(views(args@)[0] == args@[0]@);
        if str_equals(args[0].as_str(), "UTF8") {
            succeed(202, "UTF8 mode is always ON")
        } else {
            fail(504, "command not implemented for this option")
        }
    }

    /// PWD: the working directory, quoted.
    pub fn exec_pwd_command(&self, _args: &Vec<String>) -> (r: CommandResult<L>)
        ensures
            reply_of(r) == done(257, seq!['"'] + self.cwd() + seq!['"']),
            no_resource(r),
    {
        let mut m = String::new();
        push_char(&mut m, '"');
        m.append(self.options.working_directory.as_str());
        push_char(&mut m, '"');
        assert(m@ =~= seq!['"'] + self.cwd() + seq!['"']);
        Ok((257, m, false, CommandReturnType::Empty))
    }

    /// TYPE: sets the representation of transferred data; on failure nothing
    /// changes.
    pub fn exec_type_command(&mut self, args: &Vec<String>) -> (r: CommandResult<L>)
        ensures
            type_effect(*old(self), *final(self), views(args@), r),
    {
        if args.len() == 0 {
            return fail(501, "Syntax error in arguments");
        }
        assert(views(args@)[0] == args@[0]@);
        let code = args[0].as_str();
        if str_equals(code, "A") {
            self.options.data_representation = DataType::ASCII;
        } else if str_equals(code, "E") {
            self.options.data_representation = DataType::EBCDIC;
        } else if str_equals(code, "I") {
            self.options.data_representation = DataType::Image;
        } else if str_equals(code, "L") {
            if args.len() < 2 {
                return fail(501, "Syntax error in arguments");
            }
            assert(views(args@)[1] == args@[1]@);
            match parse_i32(args[1].as_str()) {
                Some(size) => {
                    self.options.data_representation = DataType::Local;
                    self.options.local_bytes = size;
                },
                None => {
                    return fail(501, "Syntax error in arguments");
                },
            }
        } else {
            return fail(504, "command not implemented for this option");
        }
        succeed(200, "command OK")
    }

    /// PASV: switches to passive mode. `bound` is the listener that was
    /// bound for the data channel and its port, or nothing when no port in
    /// the searched range could be bound. On success the listener is handed
    /// back as the side resource, for the caller to arm.
    pub fn exec_pasv_command(&mut self, config: &Config, bound: Option<(L, u16)>) -> (r:
        CommandResult<L>)
        ensures
            *final(self) == after_pasv(*old(self)),
            match bound {
                Some((l, p)) => reply_of(r) == done(227, pasv_message(config.hostname_view(), p as nat))
                    && (r matches Ok((_, _, _, CommandReturnType::TcpListener(x))) && x == l),
                None => reply_of(r) == failed(425, "cannot open data connection"@),
            },
    {
        self.options.listen_mode = ListenMode::Passive;
        match bound {
            Some((listener, port)) => {
                let host = config.get_hostname();
                let m = pasv_reply(host.as_str(), port);
                Ok((227, m, false, CommandReturnType::TcpListener(listener)))
            },
            None => fail(425, "cannot open data connection"),
        }
    }

    /// Stores the side resource of a command's result, if it is a listener,
    /// as the armed data channel, and gives the reply line(s) to send.
    pub fn complete_command(&mut self, r: CommandResult<L>) -> (reply: String)
        ensures
            reply@ == reply_text(reply_of(r).1, reply_of(r).2, reply_of(r).3),
            *final(self) == armed_by(*old(self), r),
    {
        match r {
            Ok((code, message, multiline, side)) => {
                match side {
                    CommandReturnType::TcpListener(l) => {
                        self.data_listener = Some(l);
                    },
                    _ => {},
                }
                format_reply(code, message.as_str(), multiline)
            },
            Err((code, message)) => format_reply(code, message.as_str(), false),
        }
    }

    /// LIST, first step: takes the armed listener, which no later command
    /// can use again. Without one, LIST fails with 425.
    pub fn exec_list_command(&mut self, _args: &Vec<String>) -> (r: Result<L, (i32, String)>)
        ensures
            *final(self) == after_list(*old(self)),
            match list_outcome(*old(self)) {
                Ok(l) => (r matches Ok(x) && x == l),
                Err(code) => (r matches Err((c, m)) && c == code && m@
                    == "cannot open data connection"@),
            },
    {
        match self.data_listener.take() {
            Some(l) => Ok(l),
            None => Err((425, String::from_str("cannot open data connection"))),
        }
    }

    /// The directory that CWD with `args` would enter, if a path is given.
    pub fn cwd_target(&self, args: &Vec<String>) -> (r: Option<String>)
        ensures
            args.len() == 0 ==> r is None,
            args.len() > 0 ==> (r matches Some(p) && p@ == resolve_path(self.cwd(), args@[0]@)),
    {
        if args.len() == 0 {
            None
        } else {
            Some(resolve(self.options.working_directory.as_str(), args[0].as_str()))
        }
    }

    /// CWD: enters the directory that the first argument names, given what a
    /// check of that directory found. Only a directory that was found
    /// becomes the working directory.
    pub fn exec_cwd_command(&mut self, args: &Vec<String>, check: PathCheck) -> (r: CommandResult<L>)
        ensures
            no_resource(r),
            final(self).data_listener == old(self).data_listener,
            same_but_cwd(final(self).options_view(), old(self).options_view()),
            args.len() == 0 ==> reply_of(r) == failed(501, "missing pathname"@) && final(self).cwd()
                == old(self).cwd(),
            args.len() > 0 ==> cwd_effect(
                old(self).cwd(),
                resolve_path(old(self).cwd(), args@[0]@),
                check,
                reply_of(r),
                final(self).cwd(),
            ),
    {
        if args.len() == 0 {
            return fail(501, "missing pathname");
        }
        let path = resolve(self.options.working_directory.as_str(), args[0].as_str());
        self.change_directory(path, check)
    }

    /// CDUP: CWD to the parent directory.
    pub fn exec_cdup_command(&mut self, check: PathCheck) -> (r: CommandResult<L>)
        ensures
            no_resource(r),
            final(self).data_listener == old(self).data_listener,
            same_but_cwd(final(self).options_view(), old(self).options_view()),
            cwd_effect(
                old(self).cwd(),
                resolve_path(old(self).cwd(), ".."@),
                check,
                reply_of(r),
                final(self).cwd(),
            ),
    {
        let args = vec![String::from_str("..")];
        assert(args@[0]@ == ".."@);
        self.exec_cwd_command(&args, check)
    }

    /// The directory that CDUP would enter.
    pub fn cdup_target(&self) -> (r: String)
        ensures
            r@ == resolve_path(self.cwd(), ".."@),
    {
        resolve(self.options.working_directory.as_str(), "..")
    }

    /// Enters `path`, given what a check of it found: only a directory that
    /// was found becomes the working directory.
    pub fn change_directory(&mut self, path: String, check: PathCheck) -> (r: CommandResult<L>)
        ensures
            no_resource(r),
            final(self).data_listener == old(self).data_listener,
            same_but_cwd(final(self).options_view(), old(self).options_view()),
            cwd_effect(old(self).cwd(), path@, check, reply_of(r), final(self).cwd()),
    {
        match check {
            PathCheck::Found => {
                self.options.working_directory = path;
                succeed(250, "ok")
            },
            PathCheck::Missing => {
                let mut m = path;
                m.append(" inexistant path");
                Err((550, m))
            },
            PathCheck::Failed => fail(450, "error"),
        }
    }
}

/// What USER does: the session's user becomes the trimmed, space-joined
/// arguments, with no password; nothing else changes.
pub open spec fn user_effect<L>(
    c0: FtpClient<L>,
    c1: FtpClient<L>,
    args: Seq<Seq<char>>,
    r: CommandResult<L>,
) -> bool {
    &&& reply_of(r) == done(230, "user connected"@)
    &&& no_resource(r)
    &&& c1.options.session matches Some(s) && s.username_view() == trim_of(joined_args(args))
        && s.password_view() is None
    &&& c1.options.working_directory == c0.options.working_directory
    &&& c1.options.data_representation == c0.options.data_representation
    &&& c1.options.local_bytes == c0.options.local_bytes
    &&& c1.options.listen_mode == c0.options.listen_mode
    &&& c1.data_listener == c0.data_listener
}

/// What TYPE does: on success it records the representation (and the byte
/// size for `L`); on failure nothing changes.
pub open spec fn type_effect<L>(
    c0: FtpClient<L>,
    c1: FtpClient<L>,
    args: Seq<Seq<char>>,
    r: CommandResult<L>,
) -> bool {
    &&& no_resource(r)
    &&& c1.data_listener == c0.data_listener
    &&& match type_request(args) {
        Ok((d, b)) => reply_of(r) == done(200, "command OK"@) && c1.options == (ClientOptions {
            data_representation: d,
            local_bytes: match b {
                Some(v) => v,
                None => c0.options.local_bytes,
            },
            ..c0.options
        }),
        Err((c, m)) => reply_of(r) == failed(c, m) && c1.options == c0.options,
    }
}

/// The session after PASV: in passive mode, otherwise as it was.
pub open spec fn after_pasv<L>(c: FtpClient<L>) -> FtpClient<L> {
    FtpClient { options: ClientOptions { listen_mode: ListenMode::Passive, ..c.options }, ..c }
}

/// The session after a command's result is taken in: a listener handed
/// back becomes the armed data channel.
pub open spec fn armed_by<L>(c: FtpClient<L>, r: CommandResult<L>) -> FtpClient<L> {
    match r {
        Ok((_, _, _, CommandReturnType::TcpListener(l))) => FtpClient { data_listener: Some(l), ..c },
        _ => c,
    }
}

/// What LIST gets from the session: the armed listener, or the code 425
/// when none is armed.
pub open spec fn list_outcome<L>(c: FtpClient<L>) -> Result<L, int> {
    match c.data_listener {
        Some(l) => Ok(l),
        None => Err(425),
    }
}

/// The session after LIST: no data channel armed.
pub open spec fn after_list<L>(c: FtpClient<L>) -> FtpClient<L> {
    FtpClient { data_listener: None, ..c }
}

/// A data channel serves one transfer: after a successful PASV, the LIST
/// that follows takes the listener PASV bound and leaves the session
/// unarmed, so a second LIST without a new PASV fails with 425.
pub proof fn lemma_pasv_then_list<L>(c: FtpClient<L>, r: CommandResult<L>, l: L)
    requires
        r matches Ok((_, _, _, CommandReturnType::TcpListener(x))) && x == l,
    ensures
        list_outcome(armed_by(after_pasv(c), r)) == Ok::<L, int>(l),
        after_list(armed_by(after_pasv(c), r)).data_listener is None,
        list_outcome(after_list(armed_by(after_pasv(c), r))) == Err::<L, int>(425),
{
}

/// A successful PASV answers, on one line, `227` and the passive-mode text
/// for the configured host and the bound port, and arms the listener it
/// bound as the session's data channel.
pub proof fn lemma_pasv_reply_arms<L>(c: FtpClient<L>, host: Seq<char>, r: CommandResult<L>, l: L, port: u16)
    requires
        reply_of(r) == done(227, pasv_message(host, port as nat)),
        r matches Ok((_, _, _, CommandReturnType::TcpListener(x))) && x == l,
    ensures
        reply_text(reply_of(r).1, reply_of(r).2, reply_of(r).3) == dec_int(227) + seq![' ']
            + pasv_message(host, port as nat) + seq!['\r', '\n'],
        armed_by(after_pasv(c), r).data_listener == Some(l),
{
}

/// Whether two sets of settings differ at most in the working directory.
pub open spec fn same_but_cwd(a: ClientOptions, b: ClientOptions) -> bool {
    &&& a.session == b.session
    &&& a.data_representation == b.data_representation
    &&& a.local_bytes == b.local_bytes
    &&& a.listen_mode == b.listen_mode
}

/// What CWD to `path` does from `cwd`, given what the check of `path`
/// found: the reply, and the working directory afterwards.
pub open spec fn cwd_effect(
    cwd: Seq<char>,
    path: Seq<char>,
    check: PathCheck,
    reply: (bool, int, Seq<char>, bool),
    new_cwd: Seq<char>,
) -> bool {
    match check {
        PathCheck::Found => reply == done(250, "ok"@) && new_cwd == path,
        PathCheck::Missing => reply == failed(550, path + " inexistant path"@) && new_cwd == cwd,
        PathCheck::Failed => reply == failed(450, "error"@) && new_cwd == cwd,
    }
}

/// The reply that ends a LIST whose listener was taken.
pub fn list_reply<L>(status: ListStatus) -> (r: CommandResult<L>)
    ensures
        no_resource(r),
        reply_of(r) == match status {
            ListStatus::DirectoryUnreadable => failed(550, "cannot access directory"@),
            ListStatus::AcceptFailed => failed(425, "cannot open data connection"@),
            ListStatus::Sent => done(250, "ok"@),
        },
{
    match status {
        ListStatus::DirectoryUnreadable => fail(550, "cannot access directory"),
        ListStatus::AcceptFailed => fail(425, "cannot open data connection"),
        ListStatus::Sent => succeed(250, "ok"),
    }
}

/// The text of a successful PASV reply.
pub fn pasv_reply(host: &str, port: u16) -> (r: String)
    ensures
        r@ == pasv_message(host@, port as nat),
{
    let mut m = String::from_str("Entering passive mode (");
    push_replaced(&mut m, host, '.', ',');
    push_char(&mut m, ',');
    push_decimal(&mut m, (port / 256) as u64);
    push_char(&mut m, ',');
    push_decimal(&mut m, (port % 256) as u64);
    push_char(&mut m, ')');
    assert(m@ =~= pasv_message(host@, port as nat));
    m
}

/// The lines that answer a request: `CODE message` or, for a multiline
/// reply, `CODE-message` and `CODE End`; each line ends with CRLF.
pub open spec fn reply_text(code: int, message: Seq<char>, multiline: bool) -> Seq<char> {
    if multiline {
        dec_int(code) + seq!['-'] + message + seq!['\r', '\n'] + dec_int(code) + " End"@ + seq![
            '\r',
            '\n',
        ]
    } else {
        dec_int(code) + seq![' '] + message + seq!['\r', '\n']
    }
}

/// Frames a reply for the control connection.
pub fn format_reply(code: i32, message: &str, multiline: bool) -> (r: String)
    ensures
        r@ == reply_text(code as int, message@, multiline),
{
    let mut out = String::new();
    push_int(&mut out, code as i64);
    if multiline {
        push_char(&mut out, '-');
        out.append(message);
        push_char(&mut out, '\r');
        push_char(&mut out, '\n');
        push_int(&mut out, code as i64);
        out.append(" End");
    } else {
        push_char(&mut out, ' ');
        out.append(message);
    }
    push_char(&mut out, '\r');
    push_char(&mut out, '\n');
    assert(out@ =~= reply_text(code as int, message@, multiline));
    out
}

/// What the connection must do next for a request.
pub enum Step<L> {
    /// The command is done: send the reply of this result.
    Done(CommandResult<L>),
    /// PASV: bind a data listener, then finish with `exec_pasv_command`.
    BindDataListener,
    /// LIST: send the listing of this directory over a connection accepted
    /// on this listener, then finish with `list_reply`.
    SendListing(L, String),
    /// CWD or CDUP: check whether this directory exists, then finish with
    /// `change_directory`.
    CheckPath(String),
}

impl<L> FtpClient<L> {
    /// Runs a request as far as it can go without outside work: commands
    /// that need none are done; the others say what is needed.
    pub fn dispatch(&mut self, req: &Request) -> (r: Step<L>)
        ensures
            match req.command {
                Command::User => (r matches Step::Done(res) && user_effect(
                    *old(self),
                    *final(self),
                    views(req.args@),
                    res,
                )),
                Command::Syst => (r matches Step::Done(res) && reply_of(res) == done(
                    215,
                    "UNIX Type: L8"@,
                ) && no_resource(res) && *final(self) == *old(self)),
                Command::Feat => (r matches Step::Done(res) && reply_of(res) == (
                    true,
                    211int,
                    "-Features\r\nUTF8"@,
                    true,
                ) && no_resource(res) && *final(self) == *old(self)),
                Command::Opts => (r matches Step::Done(res) && reply_of(res) == opts_reply(
                    views(req.args@),
                ) && no_resource(res) && *final(self) == *old(self)),
                Command::Pwd => (r matches Step::Done(res) && reply_of(res) == done(
                    257,
                    seq!['"'] + old(self).cwd() + seq!['"'],
                ) && no_resource(res) && *final(self) == *old(self)),
                Command::Type => (r matches Step::Done(res) && type_effect(
                    *old(self),
                    *final(self),
                    views(req.args@),
                    res,
                )),
                Command::Pasv => (r matches Step::BindDataListener && *final(self) == *old(self)),
                Command::List => *final(self) == after_list(*old(self)) && match list_outcome(
                    *old(self),
                ) {
                    Ok(l) => (r matches Step::SendListing(x, d) && x == l && d@ == old(self).cwd()),
                    Err(code) => (r matches Step::Done(res) && reply_of(res) == failed(
                        code,
                        "cannot open data connection"@,
                    ) && no_resource(res)),
                },
                Command::Cwd => *final(self) == *old(self) && if req.args@.len() == 0 {
                    (r matches Step::Done(res) && reply_of(res) == failed(501, "missing pathname"@)
                        && no_resource(res))
                } else {
                    (r matches Step::CheckPath(p) && p@ == resolve_path(
                        old(self).cwd(),
                        req.args@[0]@,
                    ))
                },
                Command::Cdup => *final(self) == *old(self) && (r matches Step::CheckPath(p) && p@
                    == resolve_path(old(self).cwd(), ".."@)),
                Command::Unknown => (r matches Step::Done(res) && reply_of(res) == failed(
                    502,
                    "no implementation"@,
                ) && no_resource(res) && *final(self) == *old(self)),
            },
    {
        let args = &req.args;
        match req.command {
            Command::User => Step::Done(self.exec_user_command(args)),
            Command::Syst => Step::Done(self.exec_syst_command(args)),
            Command::Feat => Step::Done(self.exec_feat_command(args)),
            Command::Opts => Step::Done(self.exec_opts_command(args)),
            Command::Pwd => Step::Done(self.exec_pwd_command(args)),
            Command::Type => Step::Done(self.exec_type_command(args)),
            Command::Pasv => Step::BindDataListener,
            Command::List => match self.exec_list_command(args) {
                Ok(l) => Step::SendListing(l, self.options.working_directory.clone()),
                Err(e) => Step::Done(Err(e)),
            },
            Command::Cwd => match self.cwd_target(args) {
                Some(p) => Step::CheckPath(p),
                None => Step::Done(fail(501, "missing pathname")),
            },
            Command::Cdup => Step::CheckPath(self.cdup_target()),
            Command::Unknown => Step::Done(not_implemented()),
        }
    }
}

} // verus!

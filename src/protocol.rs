//! Reading a request line: the command verb and its arguments.
use vstd::prelude::*;

use crate::commands::{fail, failed, no_resource, reply_of, CommandResult};
use crate::text::{
    lemma_split_on_nonempty, split_at_char, split_on, str_equals, trim, trim_of, upper_of,
    uppercase, views,
};

verus! {

/// The commands this server knows.
#[derive(Clone, Copy, Debug, PartialEq, Eq, Structural)]
pub enum Command {
    User,
    Syst,
    Feat,
    Opts,
    Pwd,
    Type,
    Pasv,
    List,
    Cwd,
    Cdup,
    Unknown,
}

/// The command an upper-case verb names.
pub open spec fn command_spec(verb: Seq<char>) -> Command {
    if verb == "USER"@ {
        Command::User
    } else if verb == "SYST"@ {
        Command::Syst
    } else if verb == "FEAT"@ {
        Command::Feat
    } else if verb == "OPTS"@ {
        Command::Opts
    } else if verb == "PWD"@ {
        Command::Pwd
    } else if verb == "TYPE"@ {
        Command::Type
    } else if verb == "PASV"@ {
        Command::Pasv
    } else if verb == "LIST"@ {
        Command::List
    } else if verb == "CWD"@ {
        Command::Cwd
    } else if verb == "CDUP"@ {
        Command::Cdup
    } else {
        Command::Unknown
    }
}

/// Looks an upper-case verb up.
pub fn command_of(verb: &str) -> (r: Command)
    ensures
        r == command_spec(verb@),
{
    if str_equals(verb, "USER") {
        Command::User
    } else if str_equals(verb, "SYST") {
        Command::Syst
    } else if str_equals(verb, "FEAT") {
        Command::Feat
    } else if str_equals(verb, "OPTS") {
        Command::Opts
    } else if str_equals(verb, "PWD") {
        Command::Pwd
    } else if str_equals(verb, "TYPE") {
        Command::Type
    } else if str_equals(verb, "PASV") {
        Command::Pasv
    } else if str_equals(verb, "LIST") {
        Command::List
    } else if str_equals(verb, "CWD") {
        Command::Cwd
    } else if str_equals(verb, "CDUP") {
        Command::Cdup
    } else {
        Command::Unknown
    }
}

/// The space-separated words of a trimmed request line.
pub open spec fn request_words(line: Seq<char>) -> Seq<Seq<char>> {
    split_on(trim_of(line), ' ')
}

/// A request: its command and the words after the verb.
pub struct Request {
    pub command: Command,
    pub args: Vec<String>,
}

/// Splits a request line into a command and its arguments; the verb is
/// matched in upper case.
pub fn parse_request(line: &str) -> (r: Request)
    ensures
        r.command == command_spec(upper_of(request_words(line@)[0])),
        views(r.args@) == request_words(line@).drop_first(),
{
    let trimmed = trim(line);
    let mut words = split_at_char(trimmed.as_str(), ' ');
    proof {
        lemma_split_on_nonempty(trimmed@, ' ');
    }
    assert(views(words@)[0] == words@[0]@);
    let first = words.remove(0);
    assert(views(words@) =~= request_words(line@).drop_first());
    let verb = uppercase(first.as_str());
    Request { command: command_of(verb.as_str()), args: words }
}

/// The reply to a verb that is not implemented.
pub fn not_implemented<L>() -> (r: CommandResult<L>)
    ensures
        reply_of(r) == failed(502, "no implementation"@),
        no_resource(r),
{
    fail(502, "no implementation")
}

/// The greeting sent when a connection opens.
pub fn greeting() -> (r: String)
    ensures
        r@ == "220 ready\r\n"@,
{
    String::from_str("220 ready\r\n")
}

/// The notice sent on the control connection before a listing is sent.
pub fn transfer_starting() -> (r: String)
    ensures
        r@ == "150 ok\r\n"@,
{
    String::from_str("150 ok\r\n")
}

/// The notice that ends a listing, sent on the data connection before it
/// is closed.
pub fn transfer_complete() -> (r: String)
    ensures
        r@ == "226 closing data connection\r\n"@,
{
    String::from_str("226 closing data connection\r\n")
}

} // verus!

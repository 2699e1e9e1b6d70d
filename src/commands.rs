//! What one command handler hands back.
use vstd::prelude::*;

verus! {

/// A resource a command hands back besides its reply: for passive mode,
/// the listener that a later transfer accepts on.
pub enum CommandReturnType<L> {
    Empty,
    Bool(bool),
    String(String),
    TcpListener(L),
}

/// On success a reply code, its message, whether the reply spans several
/// lines, and a side resource; on failure a code and a message.
pub type CommandResult<L> = Result<(i32, String, bool, CommandReturnType<L>), (i32, String)>;

/// The reply a command result stands for: whether it succeeded, its code,
/// its message and whether it spans several lines.
pub open spec fn reply_of<L>(r: CommandResult<L>) -> (bool, int, Seq<char>, bool) {
    match r {
        Ok((c, m, ml, _)) => (true, c as int, m@, ml),
        Err((c, m)) => (false, c as int, m@, false),
    }
}

/// Whether a command result carries no side resource.
pub open spec fn no_resource<L>(r: CommandResult<L>) -> bool {
    match r {
        Ok((_, _, _, res)) => res is Empty,
        Err(_) => true,
    }
}

/// A single-line success.
pub open spec fn done(code: int, message: Seq<char>) -> (bool, int, Seq<char>, bool) {
    (true, code, message, false)
}

/// A failure.
pub open spec fn failed(code: int, message: Seq<char>) -> (bool, int, Seq<char>, bool) {
    (false, code, message, false)
}

/// Fails with the given code and message.
pub fn fail<L>(code: i32, message: &str) -> (r: CommandResult<L>)
    ensures
        reply_of(r) == failed(code as int, message@),
{
    Err((code, String::from_str(message)))
}

/// Succeeds with a single-line reply and no side resource.
pub fn succeed<L>(code: i32, message: &str) -> (r: CommandResult<L>)
    ensures
        reply_of(r) == done(code as int, message@),
        no_resource(r),
{
    Ok((code, String::from_str(message), false, CommandReturnType::Empty))
}

} // verus!

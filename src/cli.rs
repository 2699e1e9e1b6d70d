//! Reading the command line: the host and port to listen on, or a request
//! for the version.
use vstd::prelude::*;

use crate::config::Config;
use crate::text::{str_equals, views};

verus! {

/// What the command line asks for.
pub enum Invocation {
    /// Serve with this configuration.
    Serve(Config),
    /// Print the version and stop.
    ShowVersion,
}

/// Whether `a` is one of the two spellings of an option.
pub open spec fn is_option(a: Seq<char>, long: Seq<char>, short: Seq<char>) -> bool {
    a == long || a == short
}

/// Scans the arguments from position `i`, with the host and port found so
/// far. Each option takes the argument after it; an option at the end keeps
/// the value given earlier, and is an error if there was none. The version
/// option ends the scan. Anything else is skipped. Gives the version request
/// as `None`, else the host and port found.
pub open spec fn scan_args(args: Seq<Seq<char>>, i: int, host: Seq<char>, port: Seq<char>) -> Result<
    Option<(Seq<char>, Seq<char>)>,
    Seq<char>,
>
    decreases args.len() - i,
{
    if i < 0 || i >= args.len() {
        Ok(Some((host, port)))
    } else if is_option(args[i], "--hostname"@, "-h"@) {
        if i + 1 < args.len() {
            scan_args(args, i + 2, args[i + 1], port)
        } else if host.len() == 0 {
            Err("no hostname specified after --hostname argument"@)
        } else {
            Ok(Some((host, port)))
        }
    } else if is_option(args[i], "--port"@, "-p"@) {
        if i + 1 < args.len() {
            scan_args(args, i + 2, host, args[i + 1])
        } else if port.len() == 0 {
            Err("no port number specified after --port argument"@)
        } else {
            Ok(Some((host, port)))
        }
    } else if is_option(args[i], "--version"@, "-v"@) {
        Ok(None)
    } else {
        scan_args(args, i + 1, host, port)
    }
}

/// What the whole command line gives, its first word being the program's
/// name: the version request, an error, or the host and port, both of which
/// must be given.
pub open spec fn args_outcome(args: Seq<Seq<char>>) -> Result<Option<(Seq<char>, Seq<char>)>, Seq<char>> {
    match scan_args(args, 1, Seq::empty(), Seq::empty()) {
        Ok(Some((h, p))) => if h.len() == 0 {
            Err("no hostname specified"@)
        } else if p.len() == 0 {
            Err("no port specified"@)
        } else {
            Ok(Some((h, p)))
        },
        other => other,
    }
}

/// Reads the command line (the program's name first).
pub fn parse_args(args: &Vec<String>) -> (r: Result<Invocation, &'static str>)
    ensures
        match args_outcome(views(args@)) {
            Ok(Some((h, p))) => (r matches Ok(Invocation::Serve(c)) && c.hostname_view() == h
                && c.port_view() == p),
            Ok(None) => (r matches Ok(Invocation::ShowVersion)),
            Err(e) => (r matches Err(m) && m@ == e),
        },
{
    let ghost a = views(args@);
    let mut hostname = String::new();
    let mut port = String::new();
    let mut i: usize = 1;
    while i < args.len()
        invariant
            1 <= i,
            a == views(args@),
            scan_args(a, i as int, hostname@, port@) == scan_args(a, 1, Seq::empty(), Seq::empty()),
        decreases args.len() - i,
    {
        let arg = args[i].as_str();
        assert(a[i as int] == arg@);
        if str_equals(arg, "--hostname") || str_equals(arg, "-h") {
            if i + 1 < args.len() {
                assert(a[i + 1] == args@[i + 1]@);
                hostname = args[i + 1].clone();
                i = i + 2;
            } else {
                if hostname.as_str().unicode_len() == 0 {
                    return Err("no hostname specified after --hostname argument");
                }
                i = i + 1;
            }
        } else if str_equals(arg, "--port") || str_equals(arg, "-p") {
            if i + 1 < args.len() {
                assert(a[i + 1] == args@[i + 1]@);
                port = args[i + 1].clone();
                i = i + 2;
            } else {
                if port.as_str().unicode_len() == 0 {
                    return Err("no port number specified after --port argument");
                }
                i = i + 1;
            }
        } else if str_equals(arg, "--version") || str_equals(arg, "-v") {
            return Ok(Invocation::ShowVersion);
        } else {
            i = i + 1;
        }
    }
    if hostname.as_str().unicode_len() == 0 {
        return Err("no hostname specified");
    }
    if port.as_str().unicode_len() == 0 {
        return Err("no port specified");
    }
    Ok(Invocation::Serve(Config::new(hostname, port)))
}

} // verus!

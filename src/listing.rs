//! The lines of a directory listing sent over the data connection.
use vstd::prelude::*;

use crate::text::{dec_digits, push_char, push_decimal};

verus! {

/// What a listing line shows of one directory entry.
pub struct ListEntry {
    pub is_dir: bool,
    /// The permission bits, as in a Unix file mode.
    pub mode: u32,
    pub owner: String,
    pub group: String,
    /// The size in bytes.
    pub size: u64,
    /// The modification time, in seconds and nanoseconds since the Unix epoch.
    pub modified_secs: i64,
    pub modified_nanos: u32,
    pub name: String,
}

/// `c` when `bit` is set in `mode`, else `-`.
pub open spec fn flag(mode: u32, bit: u32, c: char) -> char {
    if mode & bit != 0 { c } else { '-' }
}

/// The ten-character permission string: the entry type, then read, write
/// and execute for the owner, the group and others.
pub open spec fn permission_text(is_dir: bool, mode: u32) -> Seq<char> {
    seq![
        if is_dir { 'd' } else { '-' },
        flag(mode, 0o400, 'r'),
        flag(mode, 0o200, 'w'),
        flag(mode, 0o100, 'x'),
        flag(mode, 0o40, 'r'),
        flag(mode, 0o20, 'w'),
        flag(mode, 0o10, 'x'),
        flag(mode, 0o4, 'r'),
        flag(mode, 0o2, 'w'),
        flag(mode, 0o1, 'x'),
    ]
}

/// `n` spaces.
pub open spec fn spaces(n: nat) -> Seq<char> {
    Seq::new(n, |i: int| ' ')
}

/// `s` right-justified in a field of `width` characters.
pub open spec fn pad_left(s: Seq<char>, width: nat) -> Seq<char> {
    if s.len() < width {
        spaces((width - s.len()) as nat) + s
    } else {
        s
    }
}

/// The width of the size column.
pub const SIZE_WIDTH: usize = 5;

/// One listing line: permissions, owner, group, the size right-justified,
/// the modification time and the name, separated by spaces and ended by
/// CRLF.
pub open spec fn list_line_text(
    is_dir: bool,
    mode: u32,
    owner: Seq<char>,
    group: Seq<char>,
    size: u64,
    time: Seq<char>,
    name: Seq<char>,
) -> Seq<char> {
    permission_text(is_dir, mode) + seq![' '] + owner + seq![' '] + group + seq![' '] + pad_left(
        dec_digits(size as nat),
        SIZE_WIDTH as nat,
    ) + seq![' '] + time + seq![' '] + name + seq!['\r', '\n']
}

fn flag_char(mode: u32, bit: u32, c: char) -> (r: char)
    ensures
        r == flag(mode, bit, c),
{
    if mode & bit != 0 { c } else { '-' }
}

/// Appends the decimal `n` right-justified in `width` characters.
fn push_padded(out: &mut String, n: u64, width: usize)
    ensures
        final(out)@ == old(out)@ + pad_left(dec_digits(n as nat), width as nat),
{
    let mut digits = String::new();
    push_decimal(&mut digits, n);
    let len = digits.as_str().unicode_len();
    let ghost start = out@;
    if len < width {
        let mut i: usize = 0;
        while i < width - len
            invariant
                i <= width - len,
                len < width,
                out@ == start + spaces(i as nat),
            decreases width - len - i,
        {
            push_char(out, ' ');
            i = i + 1;
            assert(out@ =~= start + spaces(i as nat));
        }
    }
    out.append(digits.as_str());
    assert(out@ =~= start + pad_left(dec_digits(n as nat), width as nat));
}

/// Formats the listing line of `entry`, given its modification time as text.
pub fn format_list_line(entry: &ListEntry, time: &str) -> (r: String)
    ensures
        r@ == list_line_text(
            entry.is_dir,
            entry.mode,
            entry.owner@,
            entry.group@,
            entry.size,
            time@,
            entry.name@,
        ),
{
    let mode = entry.mode;
    let mut out = String::new();
    push_char(&mut out, if entry.is_dir { 'd' } else { '-' });
    push_char(&mut out, flag_char(mode, 0o400, 'r'));
    push_char(&mut out, flag_char(mode, 0o200, 'w'));
    push_char(&mut out, flag_char(mode, 0o100, 'x'));
    push_char(&mut out, flag_char(mode, 0o40, 'r'));
    push_char(&mut out, flag_char(mode, 0o20, 'w'));
    push_char(&mut out, flag_char(mode, 0o10, 'x'));
    push_char(&mut out, flag_char(mode, 0o4, 'r'));
    push_char(&mut out, flag_char(mode, 0o2, 'w'));
    push_char(&mut out, flag_char(mode, 0o1, 'x'));
    assert(out@ =~= permission_text(entry.is_dir, mode));
    push_char(&mut out, ' ');
    out.append(entry.owner.as_str());
    push_char(&mut out, ' ');
    out.append(entry.group.as_str());
    push_char(&mut out, ' ');
    push_padded(&mut out, entry.size, SIZE_WIDTH);
    push_char(&mut out, ' ');
    out.append(time);
    push_char(&mut out, ' ');
    out.append(entry.name.as_str());
    push_char(&mut out, '\r');
    push_char(&mut out, '\n');
    assert(out@ =~= list_line_text(
        entry.is_dir,
        mode,
        entry.owner@,
        entry.group@,
        entry.size,
        time@,
        entry.name@,
    ));
    out
}

/// Relies on chrono: DateTime::from_timestamp (nothing only for a timestamp
/// out of its range of about 262,000 years either side of year 0, or for
/// nanoseconds of a second or more), with_timezone(&Local), and
/// format("%b %d %H:%M"), whose month is always three letters and whose
/// other fields are two zero-padded digits. The text depends on the
/// machine's time zone; whether there is one does not.
#[verifier::external_body]
fn local_time_text(secs: i64, nanos: u32) -> (r: Option<String>)
    ensures
        r matches Some(t) ==> t@.len() == 12,
        time_in_range(secs, nanos) ==> r is Some,
{
    match chrono::DateTime::from_timestamp(secs, nanos) {
        Some(t) => Some(t.with_timezone(&chrono::Local).format("%b %d %H:%M").to_string()),
        None => None,
    }
}

/// Whether a modification time can always be shown: under a second of
/// nanoseconds, and within about 253,000 years of 1970.
pub open spec fn time_in_range(secs: i64, nanos: u32) -> bool {
    nanos < 1_000_000_000 && -8_000_000_000_000 <= secs <= 8_000_000_000_000
}

/// The listing line of `entry`, with its modification time in local time;
/// nothing when that time cannot be shown.
pub fn list_line(entry: &ListEntry) -> (r: Option<String>)
    ensures
        time_in_range(entry.modified_secs, entry.modified_nanos) ==> r is Some,
        r matches Some(line) ==> exists|t: Seq<char>|
            t.len() == 12 && line@ == list_line_text(
                entry.is_dir,
                entry.mode,
                entry.owner@,
                entry.group@,
                entry.size,
                t,
                entry.name@,
            ),
{
    match local_time_text(entry.modified_secs, entry.modified_nanos) {
        Some(t) => Some(format_list_line(entry, t.as_str())),
        None => None,
    }
}

} // verus!

//! Text rendering for span header lines and event lines.
//!
//! Every line is specified exactly, down to the ANSI colour escapes, as a
//! `Seq<char>`; the executable builders append to a `String` and are proved
//! to produce exactly the specified text.

use vstd::prelude::*;
use vstd::string::StringExecFns;

verus! {

/// Severity of an event; each level is rendered with a distinct colour.
#[derive(Clone, Copy, Debug, PartialEq, Eq, Structural)]
pub enum Level {
    Trace,
    Debug,
    Info,
    Warn,
    Error,
}

/// `n` space characters.
pub open spec fn spec_spaces(n: nat) -> Seq<char> {
    Seq::new(n, |i: int| ' ')
}

/// Appends `n` spaces to `out`.
pub fn push_spaces(out: &mut String, n: usize)
    ensures
        final(out)@ == old(out)@ + spec_spaces(n as nat),
{
    let mut i: usize = 0;
    while i < n
        invariant
            i <= n,
            out@ == old(out)@ + spec_spaces(i as nat),
        decreases n - i,
    {
        out.append(" ");
        proof {
            reveal_strlit(" ");
            assert(out@ =~= old(out)@ + spec_spaces((i + 1) as nat));
        }
        i = i + 1;
    }
}

/// The lowercase hexadecimal digit for `n` (meaningful for `0 <= n < 16`).
pub open spec fn spec_hex_digit(n: int) -> char {
    if n == 0 { '0' } else if n == 1 { '1' } else if n == 2 { '2' }
    else if n == 3 { '3' } else if n == 4 { '4' } else if n == 5 { '5' }
    else if n == 6 { '6' } else if n == 7 { '7' } else if n == 8 { '8' }
    else if n == 9 { '9' } else if n == 10 { 'a' } else if n == 11 { 'b' }
    else if n == 12 { 'c' } else if n == 13 { 'd' } else if n == 14 { 'e' }
    else { 'f' }
}

/// A display id rendered as exactly four lowercase hex digits.
pub open spec fn spec_hex4(x: u16) -> Seq<char> {
    seq![
        spec_hex_digit(((x >> 12) & 0xf) as int),
        spec_hex_digit(((x >> 8) & 0xf) as int),
        spec_hex_digit(((x >> 4) & 0xf) as int),
        spec_hex_digit((x & 0xf) as int),
    ]
}

fn hex_digit_str(n: u16) -> (r: &'static str)
    requires
        n < 16,
    ensures
        r@ =~= seq![spec_hex_digit(n as int)],
{
    if n == 0 { proof { reveal_strlit("0"); } "0" }
    else if n == 1 { proof { reveal_strlit("1"); } "1" }
    else if n == 2 { proof { reveal_strlit("2"); } "2" }
    else if n == 3 { proof { reveal_strlit("3"); } "3" }
    else if n == 4 { proof { reveal_strlit("4"); } "4" }
    else if n == 5 { proof { reveal_strlit("5"); } "5" }
    else if n == 6 { proof { reveal_strlit("6"); } "6" }
    else if n == 7 { proof { reveal_strlit("7"); } "7" }
    else if n == 8 { proof { reveal_strlit("8"); } "8" }
    else if n == 9 { proof { reveal_strlit("9"); } "9" }
    else if n == 10 { proof { reveal_strlit("a"); } "a" }
    else if n == 11 { proof { reveal_strlit("b"); } "b" }
    else if n == 12 { proof { reveal_strlit("c"); } "c" }
    else if n == 13 { proof { reveal_strlit("d"); } "d" }
    else if n == 14 { proof { reveal_strlit("e"); } "e" }
    else { proof { reveal_strlit("f"); } "f" }
}

/// Appends the four hex digits of `x` to `out`.
pub fn push_hex4(out: &mut String, x: u16)
    ensures
        final(out)@ == old(out)@ + spec_hex4(x),
{
    let d3: u16 = (x >> 12) & 0xf;
    let d2: u16 = (x >> 8) & 0xf;
    let d1: u16 = (x >> 4) & 0xf;
    let d0: u16 = x & 0xf;
    proof {
        assert((x >> 12) & 0xf < 16 && (x >> 8) & 0xf < 16 && (x >> 4) & 0xf < 16 && x & 0xf
            < 16) by (bit_vector);
    }
    out.append(hex_digit_str(d3));
    out.append(hex_digit_str(d2));
    out.append(hex_digit_str(d1));
    out.append(hex_digit_str(d0));
    proof {
        assert(out@ =~= old(out)@ + spec_hex4(x));
    }
}

/// Whether `k` is the name of the special `message` field.
pub fn is_message(k: &String) -> (r: bool)
    ensures
        r == (k@ == "message"@),
{
    let m = String::from_str("message");
    *k == m
}

/// View of a captured field list: each name/value pair as character sequences.
pub open spec fn recs_view(rs: Seq<(String, String)>) -> Seq<(Seq<char>, Seq<char>)> {
    rs.map_values(|p: (String, String)| (p.0@, p.1@))
}

/// View of an optional rendered timestamp.
pub open spec fn opt_view(o: Option<String>) -> Option<Seq<char>> {
    match o {
        Some(t) => Some(t@),
        None => None,
    }
}

/// Optional timestamp prefix: dimmed, in brackets, followed by a space.
pub open spec fn spec_timestamp_part(ts: Option<Seq<char>>) -> Seq<char> {
    match ts {
        Some(t) => "\u{1b}[;2m["@ + t + "] "@,
        None => Seq::<char>::empty(),
    }
}

/// Separator between a span's target path and its name; omitted when either
/// part is empty.
pub open spec fn spec_sep(target: Seq<char>, name: Seq<char>) -> Seq<char> {
    if target.len() == 0 || name.len() == 0 {
        Seq::<char>::empty()
    } else {
        "::"@
    }
}

/// The position of the first field named `message` at or after position `i`,
/// or the length of the list when there is none.
pub open spec fn spec_msg_index_from(rs: Seq<(Seq<char>, Seq<char>)>, i: int) -> int
    decreases rs.len() - i,
{
    if i < 0 || i >= rs.len() {
        rs.len() as int
    } else if rs[i].0 == "message"@ {
        i
    } else {
        spec_msg_index_from(rs, i + 1)
    }
}

/// The position of a span's inline message: the first field named `message`,
/// or the length of the list when there is none. Only this one field is
/// treated as the message; a later field that happens to be named `message`
/// is an ordinary field.
pub open spec fn spec_msg_index(rs: Seq<(Seq<char>, Seq<char>)>) -> int {
    spec_msg_index_from(rs, 0)
}

/// The inline message segment of a span header: the first `message` field,
/// preceded by a space unless both target and name are empty.
pub open spec fn spec_span_message_part(
    target: Seq<char>,
    name: Seq<char>,
    rs: Seq<(Seq<char>, Seq<char>)>,
) -> Seq<char> {
    let mi = spec_msg_index(rs);
    if mi < rs.len() {
        "\u{1b}[m"@ + (if target.len() == 0 && name.len() == 0 {
            Seq::<char>::empty()
        } else {
            " "@
        }) + rs[mi].1
    } else {
        Seq::<char>::empty()
    }
}

/// One trailing span field, inline or on its own aligned line.
pub open spec fn spec_span_field(k: Seq<char>, v: Seq<char>, depth: nat, multiline: bool) -> Seq<
    char,
> {
    if multiline {
        "\n"@ + spec_spaces(2 * depth + 22) + "- \u{1b}[2m"@ + k + ": \u{1b}[22m"@ + v
    } else {
        " \u{1b}[2m"@ + k + ": \u{1b}[22m"@ + v
    }
}

/// The span fields among the first `i`, in capture order, except the one at
/// position `skip` (the inline message): only the first `message` field is
/// removed from the trailing segment, every other field keeps its place.
pub open spec fn spec_span_fields_upto(
    rs: Seq<(Seq<char>, Seq<char>)>,
    i: int,
    skip: int,
    depth: nat,
    multiline: bool,
) -> Seq<char>
    decreases i,
{
    if i <= 0 {
        Seq::<char>::empty()
    } else {
        spec_span_fields_upto(rs, i - 1, skip, depth, multiline) + if i - 1 == skip {
            Seq::<char>::empty()
        } else {
            spec_span_field(rs[i - 1].0, rs[i - 1].1, depth, multiline)
        }
    }
}

/// The marker after a span header: a blank for a span rendered for the first
/// time, a bright caret for one that was shown before.
pub open spec fn spec_marker(was_new: bool) -> Seq<char> {
    if was_new {
        " "@
    } else {
        "\u{1b}[93m^"@
    }
}

/// The head of a span header line: optional timestamp, indentation, the
/// `target::name` heading and the inline message.
pub open spec fn spec_span_head(
    target: Seq<char>,
    name: Seq<char>,
    rs: Seq<(Seq<char>, Seq<char>)>,
    date_time: Option<Seq<char>>,
    depth: nat,
) -> Seq<char> {
    spec_timestamp_part(date_time) + "\u{1b}[m"@ + spec_spaces(2 * depth) + "\u{1b}[m"@ + target
        + spec_sep(target, name) + "\u{1b}[37m"@ + name + spec_span_message_part(target, name, rs)
}

/// The tail of a span header line: the first-time marker, the four-digit
/// display id, the remaining fields and the line terminator.
pub open spec fn spec_span_tail(
    rs: Seq<(Seq<char>, Seq<char>)>,
    display_id: u16,
    was_new: bool,
    depth: nat,
    multiline: bool,
) -> Seq<char> {
    spec_marker(was_new) + " \u{1b}[37m["@ + spec_hex4(display_id) + "]\u{1b}[36m"@
        + spec_span_fields_upto(rs, rs.len() as int, spec_msg_index(rs), depth, multiline)
        + "\u{1b}[m\n"@
}

/// A complete span header line: optional timestamp, indentation, the
/// `target::name` heading, the inline message, the first-time marker, the
/// four-digit display id, and the remaining fields.
pub open spec fn spec_span_line(
    target: Seq<char>,
    name: Seq<char>,
    rs: Seq<(Seq<char>, Seq<char>)>,
    display_id: u16,
    date_time: Option<Seq<char>>,
    was_new: bool,
    depth: nat,
    multiline: bool,
) -> Seq<char> {
    spec_span_head(target, name, rs, date_time, depth) + spec_span_tail(
        rs,
        display_id,
        was_new,
        depth,
        multiline,
    )
}

/// The line shown in place of a span whose metadata cannot be found.
pub open spec fn spec_error_line() -> Seq<char> {
    "\u{1b}[31mFailed to read span info\u{1b}[m\n"@
}

/// The coloured severity tag of an event line.
pub open spec fn spec_level_part(l: Level) -> Seq<char> {
    match l {
        Level::Trace => "\u{1b}[94mTRACE"@,
        Level::Debug => "\u{1b}[34mDEBUG"@,
        Level::Info => "\u{1b}[32mINFO"@,
        Level::Warn => "\u{1b}[33mWARN"@,
        Level::Error => "\u{1b}[31mERROR"@,
    }
}

/// The message segments of an event: every `message` field among the first
/// `i`, in order, each preceded by a space.
pub open spec fn spec_event_messages_upto(rs: Seq<(Seq<char>, Seq<char>)>, i: int) -> Seq<char>
    decreases i,
{
    if i <= 0 {
        Seq::<char>::empty()
    } else {
        spec_event_messages_upto(rs, i - 1) + if rs[i - 1].0 == "message"@ {
            " "@ + rs[i - 1].1
        } else {
            Seq::<char>::empty()
        }
    }
}

/// One non-message event field, inline or on its own aligned line.
pub open spec fn spec_event_field(k: Seq<char>, v: Seq<char>, depth: nat, multiline: bool) -> Seq<
    char,
> {
    if multiline {
        "\n"@ + spec_spaces(2 * depth + 22) + "- \u{1b}[36;2m"@ + k + ": \u{1b}[22m"@ + v
    } else {
        " \u{1b}[36;2m"@ + k + ": \u{1b}[22m"@ + v
    }
}

/// The non-message event fields among the first `i`, in the order the host
/// exposed them.
pub open spec fn spec_event_fields_upto(
    rs: Seq<(Seq<char>, Seq<char>)>,
    i: int,
    depth: nat,
    multiline: bool,
) -> Seq<char>
    decreases i,
{
    if i <= 0 {
        Seq::<char>::empty()
    } else {
        spec_event_fields_upto(rs, i - 1, depth, multiline) + if rs[i - 1].0 == "message"@ {
            Seq::<char>::empty()
        } else {
            spec_event_field(rs[i - 1].0, rs[i - 1].1, depth, multiline)
        }
    }
}

/// A complete event line: optional timestamp, indentation, the coloured
/// severity tag, every message field, then the remaining fields.
pub open spec fn spec_event_line(
    level: Level,
    rs: Seq<(Seq<char>, Seq<char>)>,
    ts: Option<Seq<char>>,
    depth: nat,
    multiline: bool,
) -> Seq<char> {
    spec_timestamp_part(ts) + "\u{1b}[m"@ + spec_spaces(2 * depth) + spec_level_part(level)
        + "\u{1b}[m"@ + spec_event_messages_upto(rs, rs.len() as int) + spec_event_fields_upto(
        rs,
        rs.len() as int,
        depth,
        multiline,
    ) + "\u{1b}[m\n"@
}

fn push_timestamp_part(out: &mut String, ts: &Option<String>)
    ensures
        final(out)@ == old(out)@ + spec_timestamp_part(opt_view(*ts)),
{
    match ts {
        Some(t) => {
            out.append("\u{1b}[;2m[");
            out.append(t.as_str());
            out.append("] ");
            proof {
                assert(out@ =~= old(out)@ + spec_timestamp_part(opt_view(*ts)));
            }
        },
        None => {},
    }
}

/// Appends the error placeholder line for missing span metadata.
pub fn push_error_line(out: &mut String)
    ensures
        final(out)@ == old(out)@ + spec_error_line(),
{
    out.append("\u{1b}[31mFailed to read span info\u{1b}[m\n");
}

fn level_str(l: Level) -> (r: &'static str)
    ensures
        r@ == spec_level_part(l),
{
    match l {
        Level::Trace => "\u{1b}[94mTRACE",
        Level::Debug => "\u{1b}[34mDEBUG",
        Level::Info => "\u{1b}[32mINFO",
        Level::Warn => "\u{1b}[33mWARN",
        Level::Error => "\u{1b}[31mERROR",
    }
}

/// Finds the position of a field list's inline message: the first field
/// named `message`, or the list's length when there is none.
fn find_message_index(rs: &Vec<(String, String)>) -> (mi: usize)
    ensures
        mi as int == spec_msg_index(recs_view(rs@)),
{
    let ghost rv = recs_view(rs@);
    let mut mi: usize = 0;
    while mi < rs.len() && !is_message(&rs[mi].0)
        invariant
            mi <= rs@.len(),
            rv == recs_view(rs@),
            spec_msg_index_from(rv, 0) == spec_msg_index_from(rv, mi as int),
        decreases rs@.len() - mi,
    {
        proof {
            assert(rv[mi as int] == (rs@[mi as int].0@, rs@[mi as int].1@));
        }
        mi = mi + 1;
    }
    proof {
        if mi < rs@.len() {
            assert(rv[mi as int] == (rs@[mi as int].0@, rs@[mi as int].1@));
            assert(spec_msg_index_from(rv, mi as int) == mi as int);
        }
    }
    mi
}

#[verifier::rlimit(100)]
fn push_span_head(
    out: &mut String,
    target: &String,
    name: &String,
    rs: &Vec<(String, String)>,
    mi: usize,
    date_time: &Option<String>,
    depth: usize,
)
    requires
        2 * depth + 22 <= usize::MAX,
        mi as int == spec_msg_index(recs_view(rs@)),
    ensures
        final(out)@ == old(out)@ + spec_span_head(
            target@,
            name@,
            recs_view(rs@),
            opt_view(*date_time),
            depth as nat,
        ),
{
    let ghost rv = recs_view(rs@);
    push_timestamp_part(out, date_time);
    out.append("\u{1b}[m");
    push_spaces(out, 2 * depth);
    out.append("\u{1b}[m");
    out.append(target.as_str());
    if !target.as_str().is_empty() && !name.as_str().is_empty() {
        out.append("::");
    }
    out.append("\u{1b}[37m");
    out.append(name.as_str());
    let ghost mid1 = out@;
    if mi < rs.len() {
        proof {
            assert(rv[mi as int] == (rs@[mi as int].0@, rs@[mi as int].1@));
        }
        out.append("\u{1b}[m");
        if !(target.as_str().is_empty() && name.as_str().is_empty()) {
            out.append(" ");
        }
        out.append(rs[mi].1.as_str());
    }
    proof {
        assert(out@ =~= mid1 + spec_span_message_part(target@, name@, rv));
        assert(out@ =~= old(out)@ + spec_span_head(
            target@,
            name@,
            rv,
            opt_view(*date_time),
            depth as nat,
        ));
    }
}

#[verifier::rlimit(100)]
fn push_span_tail(
    out: &mut String,
    rs: &Vec<(String, String)>,
    mi: usize,
    display_id: u16,
    was_new: bool,
    depth: usize,
    multiline: bool,
)
    requires
        2 * depth + 22 <= usize::MAX,
        mi as int == spec_msg_index(recs_view(rs@)),
    ensures
        final(out)@ == old(out)@ + spec_span_tail(
            recs_view(rs@),
            display_id,
            was_new,
            depth as nat,
            multiline,
        ),
{
    let ghost rv = recs_view(rs@);
    if was_new {
        out.append(" ");
    } else {
        out.append("\u{1b}[93m^");
    }
    out.append(" \u{1b}[37m[");
    push_hex4(out, display_id);
    out.append("]\u{1b}[36m");
    let ghost mid2 = out@;
    let mut i: usize = 0;
    while i < rs.len()
        invariant
            i <= rs@.len(),
            rv == recs_view(rs@),
            2 * depth + 22 <= usize::MAX,
            mi as int == spec_msg_index(rv),
            out@ == mid2 + spec_span_fields_upto(rv, i as int, mi as int, depth as nat, multiline),
        decreases rs@.len() - i,
    {
        proof {
            assert(rv[i as int] == (rs@[i as int].0@, rs@[i as int].1@));
        }
        if i != mi {
            if multiline {
                out.append("\n");
                push_spaces(out, 2 * depth + 22);
                out.append("- \u{1b}[2m");
            } else {
                out.append(" \u{1b}[2m");
            }
            out.append(rs[i].0.as_str());
            out.append(": \u{1b}[22m");
            out.append(rs[i].1.as_str());
        }
        i = i + 1;
        proof {
            assert(out@ =~= mid2 + spec_span_fields_upto(
                rv,
                i as int,
                mi as int,
                depth as nat,
                multiline,
            ));
        }
    }
    out.append("\u{1b}[m\n");
    proof {
        assert(out@ =~= old(out)@ + spec_span_tail(
            rv,
            display_id,
            was_new,
            depth as nat,
            multiline,
        ));
    }
}

/// Appends a complete span header line to `out`.
pub fn push_span_line(
    out: &mut String,
    target: &String,
    name: &String,
    rs: &Vec<(String, String)>,
    display_id: u16,
    date_time: &Option<String>,
    was_new: bool,
    depth: usize,
    multiline: bool,
)
    requires
        2 * depth + 22 <= usize::MAX,
    ensures
        final(out)@ == old(out)@ + spec_span_line(
            target@,
            name@,
            recs_view(rs@),
            display_id,
            opt_view(*date_time),
            was_new,
            depth as nat,
            multiline,
        ),
{
    let mi = find_message_index(rs);
    push_span_head(out, target, name, rs, mi, date_time, depth);
    push_span_tail(out, rs, mi, display_id, was_new, depth, multiline);
    proof {
        assert(out@ =~= old(out)@ + spec_span_line(
            target@,
            name@,
            recs_view(rs@),
            display_id,
            opt_view(*date_time),
            was_new,
            depth as nat,
            multiline,
        ));
    }
}

/// Appends a complete event line to `out`.
pub fn push_event_line(
    out: &mut String,
    level: Level,
    rs: &Vec<(String, String)>,
    ts: &Option<String>,
    depth: usize,
    multiline: bool,
)
    requires
        2 * depth + 22 <= usize::MAX,
    ensures
        final(out)@ == old(out)@ + spec_event_line(
            level,
            recs_view(rs@),
            opt_view(*ts),
            depth as nat,
            multiline,
        ),
{
    let ghost rv = recs_view(rs@);
    push_timestamp_part(out, ts);
    out.append("\u{1b}[m");
    push_spaces(out, 2 * depth);
    out.append(level_str(level));
    out.append("\u{1b}[m");
    let ghost mid1 = out@;
    let mut i: usize = 0;
    while i < rs.len()
        invariant
            i <= rs@.len(),
            rv == recs_view(rs@),
            out@ == mid1 + spec_event_messages_upto(rv, i as int),
        decreases rs@.len() - i,
    {
        proof {
            assert(rv[i as int] == (rs@[i as int].0@, rs@[i as int].1@));
        }
        if is_message(&rs[i].0) {
            out.append(" ");
            out.append(rs[i].1.as_str());
        }
        i = i + 1;
        proof {
            assert(out@ =~= mid1 + spec_event_messages_upto(rv, i as int));
        }
    }
    let ghost mid2 = out@;
    let mut i: usize = 0;
    while i < rs.len()
        invariant
            i <= rs@.len(),
            rv == recs_view(rs@),
            2 * depth + 22 <= usize::MAX,
            out@ == mid2 + spec_event_fields_upto(rv, i as int, depth as nat, multiline),
        decreases rs@.len() - i,
    {
        proof {
            assert(rv[i as int] == (rs@[i as int].0@, rs@[i as int].1@));
        }
        if !is_message(&rs[i].0) {
            if multiline {
                out.append("\n");
                push_spaces(out, 2 * depth + 22);
                out.append("- \u{1b}[36;2m");
            } else {
                out.append(" \u{1b}[36;2m");
            }
            out.append(rs[i].0.as_str());
            out.append(": \u{1b}[22m");
            out.append(rs[i].1.as_str());
        }
        i = i + 1;
        proof {
            assert(out@ =~= mid2 + spec_event_fields_upto(rv, i as int, depth as nat, multiline));
        }
    }
    out.append("\u{1b}[m\n");
    proof {
        assert(out@ =~= old(out)@ + spec_event_line(
            level,
            rv,
            opt_view(*ts),
            depth as nat,
            multiline,
        ));
    }
}

} // verus!

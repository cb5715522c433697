//! The renderer: lays out one full frame of terminal output for a query
//! and the alias table — a screen-clear sequence, the prompt line, up to
//! `height - 5` result rows sorted by command, and the escape sequence
//! that parks the cursor after the typed text.

use vstd::prelude::*;
use vstd::string::StringExecFns;

use crate::engine::{engine_spec, filter_and_sort};
use crate::table::{entry_le, entry_order, lemma_entry_order_total, views, AliasEntry, EntryModel};

verus! {

/// The prompt label shown before the query.
pub open spec fn label_seq() -> Seq<char> {
    "Enter search:"@
}

/// The prompt label as a string slice.
pub fn prompt_label() -> (s: &'static str)
    ensures
        s@ == label_seq(),
{
    "Enter search:"
}

/// The ANSI sequence that clears the screen and homes the cursor.
pub open spec fn clear_seq() -> Seq<char> {
    "\u{1b}[2J\u{1b}[1;1H"@
}

/// `n` space characters.
pub open spec fn spaces(n: nat) -> Seq<char>
    decreases n,
{
    if n == 0 {
        Seq::<char>::empty()
    } else {
        spaces((n - 1) as nat).push(' ')
    }
}

/// `s`, space-padded on the right to at least `w` characters.
pub open spec fn pad_right(s: Seq<char>, w: nat) -> Seq<char> {
    if s.len() >= w {
        s
    } else {
        s + spaces((w - s.len()) as nat)
    }
}

/// The character for one decimal digit.
pub open spec fn digit_char(d: nat) -> char {
    if d == 0 {
        '0'
    } else if d == 1 {
        '1'
    } else if d == 2 {
        '2'
    } else if d == 3 {
        '3'
    } else if d == 4 {
        '4'
    } else if d == 5 {
        '5'
    } else if d == 6 {
        '6'
    } else if d == 7 {
        '7'
    } else if d == 8 {
        '8'
    } else {
        '9'
    }
}

/// The decimal digits of `n`, most significant first, no leading zeros.
pub open spec fn dec_digits(n: nat) -> Seq<char>
    decreases n,
{
    if n < 10 {
        seq![digit_char(n)]
    } else {
        dec_digits(n / 10).push(digit_char(n % 10))
    }
}

/// The ANSI sequence that moves the cursor to the given one-based column
/// and row.
pub open spec fn goto_seq(col: nat, row: nat) -> Seq<char> {
    seq!['\u{1b}', '['] + dec_digits(row) + seq![';'] + dec_digits(col) + seq!['H']
}

/// One result row: the alias, left-justified to the field width, then
/// " - ", then the full command, then a newline.
pub open spec fn row_line(e: EntryModel) -> Seq<char> {
    pad_right(e.alias, crate::ALIAS_FIELD_WIDTH as nat) + seq![' ', '-', ' '] + e.command + seq![
        '\n',
    ]
}

/// The result rows, concatenated in order.
pub open spec fn rows_text(rs: Seq<EntryModel>) -> Seq<char>
    decreases rs.len(),
{
    if rs.len() == 0 {
        Seq::<char>::empty()
    } else {
        rows_text(rs.drop_last()) + row_line(rs.last())
    }
}

/// How many result rows fit: the terminal height less five, and none on
/// a shorter terminal.
pub open spec fn visible_rows_spec(h: int) -> int {
    if h >= 5 {
        h - 5
    } else {
        0
    }
}

/// The rows a frame shows: the sorted matches, truncated to the first
/// `visible_rows_spec(h)` of them.
pub open spec fn shown_rows(q: Seq<char>, rows: Seq<EntryModel>, h: int) -> Seq<EntryModel> {
    let sorted = engine_spec(q, rows);
    if sorted.len() <= visible_rows_spec(h) {
        sorted
    } else {
        sorted.take(visible_rows_spec(h))
    }
}

/// The prompt line: the label, one space, the query, a newline.
pub open spec fn prompt_line(q: Seq<char>) -> Seq<char> {
    label_seq() + seq![' '] + q + seq!['\n']
}

/// The one-based column the cursor is parked at: right after the typed
/// text on the prompt line.
pub open spec fn cursor_col(q: Seq<char>) -> int {
    (label_seq().len() + q.len() + 2) as int
}

/// One whole frame: clear the screen, the prompt line, the shown rows,
/// and the cursor-positioning sequence.
pub open spec fn frame_spec(q: Seq<char>, rows: Seq<EntryModel>, h: int) -> Seq<char> {
    clear_seq() + prompt_line(q) + rows_text(shown_rows(q, rows, h)) + goto_seq(
        cursor_col(q) as nat,
        1,
    )
}

/// The number of rows that fit under the given terminal height.
pub fn visible_rows(height: u16) -> (n: usize)
    ensures
        n == visible_rows_spec(height as int),
{
    if height >= 5 {
        (height - 5) as usize
    } else {
        0
    }
}

/// Appends the characters of `s` to `v`.
fn push_str_chars(v: &mut Vec<char>, s: &str)
    ensures
        final(v)@ == old(v)@ + s@,
{
    let len = s.unicode_len();
    let mut i: usize = 0;
    while i < len
        invariant
            i <= len,
            len == s@.len(),
            v@ == old(v)@ + s@.take(i as int),
        decreases len - i,
    {
        let c = s.get_char(i);
        v.push(c);
        proof {
            assert(old(v)@ + s@.take(i + 1) =~= (old(v)@ + s@.take(i as int)).push(s@[i as int]));
        }
        i = i + 1;
    }
    proof {
        assert(s@.take(len as int) =~= s@);
    }
}

/// Appends the characters of `q` to `v`.
fn push_chars(v: &mut Vec<char>, q: &Vec<char>)
    ensures
        final(v)@ == old(v)@ + q@,
{
    let len = q.len();
    let mut i: usize = 0;
    while i < len
        invariant
            i <= len,
            len == q@.len(),
            v@ == old(v)@ + q@.take(i as int),
        decreases len - i,
    {
        v.push(q[i]);
        proof {
            assert(old(v)@ + q@.take(i + 1) =~= (old(v)@ + q@.take(i as int)).push(q@[i as int]));
        }
        i = i + 1;
    }
    proof {
        assert(q@.take(len as int) =~= q@);
    }
}

/// Appends `n` spaces to `v`.
fn push_spaces(v: &mut Vec<char>, n: usize)
    ensures
        final(v)@ == old(v)@ + spaces(n as nat),
{
    let mut i: usize = 0;
    while i < n
        invariant
            i <= n,
            v@ == old(v)@ + spaces(i as nat),
        decreases n - i,
    {
        v.push(' ');
        i = i + 1;
    }
}

/// The character for one decimal digit.
fn digit_char_exec(d: u16) -> (c: char)
    requires
        d < 10,
    ensures
        c == digit_char(d as nat),
{
    if d == 0 {
        '0'
    } else if d == 1 {
        '1'
    } else if d == 2 {
        '2'
    } else if d == 3 {
        '3'
    } else if d == 4 {
        '4'
    } else if d == 5 {
        '5'
    } else if d == 6 {
        '6'
    } else if d == 7 {
        '7'
    } else if d == 8 {
        '8'
    } else {
        '9'
    }
}

/// Appends the decimal digits of `n` to `v`.
fn push_dec_digits(v: &mut Vec<char>, n: u16)
    ensures
        final(v)@ == old(v)@ + dec_digits(n as nat),
    decreases n,
{
    if n < 10 {
        let c = digit_char_exec(n);
        v.push(c);
        proof {
            assert(old(v)@ + dec_digits(n as nat) =~= old(v)@.push(digit_char(n as nat)));
        }
    } else {
        push_dec_digits(v, n / 10);
        let c = digit_char_exec(n % 10);
        v.push(c);
        proof {
            assert(old(v)@ + dec_digits(n as nat) =~= (old(v)@ + dec_digits(
                (n / 10) as nat,
            )).push(digit_char((n % 10) as nat)));
        }
    }
}

/// Relies on termion's `cursor::Goto` and its conversion to `String`: it
/// yields the ANSI sequence ESC `[` row `;` col `H`, both numbers written
/// in decimal without leading zeros. The coordinates are one-based.
#[verifier::external_body]
fn goto_string(col: u16, row: u16) -> (r: String)
    requires
        col >= 1,
        row >= 1,
    ensures
        r@ == goto_seq(col as nat, row as nat),
{
    String::from(termion::cursor::Goto(col, row))
}

/// Relies on `String`'s `FromIterator<char>`: collecting characters
/// yields the string of exactly those characters in order.
#[verifier::external_body]
fn chars_to_string(v: &Vec<char>) -> (s: String)
    ensures
        s@ == v@,
{
    v.iter().collect()
}

/// Appends one result row to `v`.
fn push_row(v: &mut Vec<char>, e: &AliasEntry)
    ensures
        final(v)@ == old(v)@ + row_line(e@),
{
    let ghost start = v@;
    let alias_len = e.alias.as_str().unicode_len();
    push_str_chars(v, e.alias.as_str());
    if alias_len < crate::ALIAS_FIELD_WIDTH {
        push_spaces(v, crate::ALIAS_FIELD_WIDTH - alias_len);
    }
    proof {
        assert(v@ =~= start + pad_right(e.alias@, crate::ALIAS_FIELD_WIDTH as nat));
    }
    v.push(' ');
    v.push('-');
    v.push(' ');
    push_str_chars(v, e.command.as_str());
    v.push('\n');
    proof {
        assert(v@ =~= start + row_line(e@));
    }
}

/// Formats one result row as the renderer shows it.
pub fn format_row(e: &AliasEntry) -> (line: String)
    ensures
        line@ == row_line(e@),
{
    let mut v: Vec<char> = Vec::new();
    push_row(&mut v, e);
    proof {
        assert(Seq::<char>::empty() + row_line(e@) =~= row_line(e@));
    }
    chars_to_string(&v)
}

/// Renders the visible result rows for a query: the sorted matches,
/// truncated to what the terminal height allows, each formatted as one
/// line.
pub fn render_rows(query: &Vec<char>, table: &Vec<AliasEntry>, height: u16) -> (lines: Vec<String>)
    ensures
        lines@.len() == shown_rows(query@, views(table@), height as int).len(),
        forall|i: int|
            0 <= i < lines@.len() ==> (#[trigger] lines@[i])@ == row_line(
                shown_rows(query@, views(table@), height as int)[i],
            ),
{
    let ghost shown = shown_rows(query@, views(table@), height as int);
    let sorted = filter_and_sort(query, table);
    let limit = visible_rows(height);
    let count = if sorted.len() <= limit {
        sorted.len()
    } else {
        limit
    };
    proof {
        assert(shown.len() == count);
        assert(forall|i: int| 0 <= i < count ==> shown[i] == views(sorted@)[i]);
    }
    let mut lines: Vec<String> = Vec::new();
    let mut i: usize = 0;
    while i < count
        invariant
            i <= count,
            count <= sorted@.len(),
            shown == shown_rows(query@, views(table@), height as int),
            shown.len() == count,
            forall|k: int| 0 <= k < count ==> shown[k] == views(sorted@)[k],
            lines@.len() == i,
            forall|k: int|
                0 <= k < i ==> (#[trigger] lines@[k])@ == row_line(shown[k]),
        decreases count - i,
    {
        let line = format_row(&sorted[i]);
        lines.push(line);
        i = i + 1;
    }
    lines
}

/// Renders one whole frame: screen clear, prompt line with the query,
/// the visible rows, and the cursor-positioning sequence. The query must
/// be short enough for the cursor column to fit the escape sequence's
/// 16-bit coordinate.
pub fn render_frame(query: &Vec<char>, table: &Vec<AliasEntry>, height: u16) -> (frame: String)
    requires
        cursor_col(query@) <= u16::MAX as int,
    ensures
        frame@ == frame_spec(query@, views(table@), height as int),
{
    let ghost shown = shown_rows(query@, views(table@), height as int);
    let mut v: Vec<char> = Vec::new();
    push_str_chars(&mut v, "\u{1b}[2J\u{1b}[1;1H");
    let label = prompt_label();
    let label_len = label.unicode_len();
    push_str_chars(&mut v, label);
    v.push(' ');
    push_chars(&mut v, query);
    v.push('\n');
    proof {
        assert(v@ =~= clear_seq() + prompt_line(query@));
    }
    let ghost head = v@;
    let sorted = filter_and_sort(query, table);
    let limit = visible_rows(height);
    let count = if sorted.len() <= limit {
        sorted.len()
    } else {
        limit
    };
    proof {
        assert(shown.len() == count);
        assert(forall|i: int| 0 <= i < count ==> shown[i] == views(sorted@)[i]);
        assert(rows_text(shown.take(0)) =~= Seq::<char>::empty());
        assert(v@ =~= head + rows_text(shown.take(0)));
    }
    let mut i: usize = 0;
    while i < count
        invariant
            i <= count,
            count <= sorted@.len(),
            shown.len() == count,
            forall|k: int| 0 <= k < count ==> shown[k] == views(sorted@)[k],
            v@ == head + rows_text(shown.take(i as int)),
        decreases count - i,
    {
        push_row(&mut v, &sorted[i]);
        proof {
            assert(shown.take(i + 1).drop_last() =~= shown.take(i as int));
            assert(shown.take(i + 1).last() == shown[i as int]);
            assert(v@ =~= head + rows_text(shown.take(i + 1)));
        }
        i = i + 1;
    }
    proof {
        assert(shown.take(count as int) =~= shown);
        reveal_strlit("Enter search:");
    }
    let col = label_len + query.len() + 2;
    let goto = goto_string(col as u16, 1);
    let mut frame = chars_to_string(&v);
    frame.append(goto.as_str());
    proof {
        assert(frame@ =~= frame_spec(query@, views(table@), height as int));
    }
    frame
}

/// Law: the renderer shows exactly `min(matches, max(height - 5, 0))`
/// rows, and what it shows are the lexicographically smallest matches:
/// every shown entry precedes every match the truncation dropped.
pub proof fn lemma_truncation_keeps_smallest(q: Seq<char>, rows: Seq<EntryModel>, h: int)
    ensures
        shown_rows(q, rows, h).len() == if engine_spec(q, rows).len() <= visible_rows_spec(h) {
            engine_spec(q, rows).len() as int
        } else {
            visible_rows_spec(h)
        },
        forall|i: int, j: int|
            0 <= i < shown_rows(q, rows, h).len() && shown_rows(q, rows, h).len() <= j
                < engine_spec(q, rows).len() ==> entry_le(
                #[trigger] shown_rows(q, rows, h)[i],
                #[trigger] engine_spec(q, rows)[j],
            ),
{
    let sorted = engine_spec(q, rows);
    let shown = shown_rows(q, rows, h);
    lemma_entry_order_total();
    crate::engine::matches_of(q, rows).lemma_sort_by_ensures(entry_order());
    let leq = entry_order();
    assert forall|i: int, j: int|
        0 <= i < shown.len() && shown.len() <= j < sorted.len() implies entry_le(
        #[trigger] shown[i],
        #[trigger] sorted[j],
    ) by {
        assert(shown[i] == sorted[i]);
        assert(leq(sorted[i], sorted[j]));
    }
}

/// Law: a frame is a function of the query, the table and the height
/// alone, so rendering twice from the same inputs yields identical
/// output.
pub proof fn lemma_render_deterministic(
    f1: Seq<char>,
    f2: Seq<char>,
    q: Seq<char>,
    rows: Seq<EntryModel>,
    h: int,
)
    requires
        f1 == frame_spec(q, rows, h),
        f2 == frame_spec(q, rows, h),
    ensures
        f1 == f2,
{
}

} // verus!

//! CSV rendering of probe results (RFC 4180 quoting).
use vstd::prelude::*;
use crate::error::RkikError;
use crate::text::{decimal, digit_char, push_char, push_decimal, push_signed_decimal, signed_decimal};

verus! {

/// A decimal number with three places: its sign and its magnitude in
/// thousandths. The sign is kept apart so that a negative value that
/// rounds to zero is still written with its minus sign.
#[derive(Debug, Clone, Copy, PartialEq, Eq, Structural)]
pub struct Thousandths {
    /// Whether the value is negative (or a negative zero).
    pub negative: bool,
    /// The magnitude, in thousandths.
    pub magnitude: u64,
}

/// One probe result, as the CSV output reads it.
#[derive(Debug, Clone)]
pub struct ProbeRow {
    /// Name of the queried target, as the user gave it.
    pub target: String,
    /// NTP stratum reported by the server.
    pub stratum: u8,
    /// Clock offset, in milliseconds with three places.
    pub offset_ms: Thousandths,
    /// Round-trip delay, in milliseconds with three places.
    pub rtt_ms: Thousandths,
    /// UNIX timestamp of the probe, in seconds.
    pub timestamp: i64,
}

/// The header line's fields.
pub const HEADER: &'static str = "target,stratum,offset_ms,delay_ms,timestamp";

/// Characters that force a field into quotes.
pub open spec fn is_special(c: char) -> bool {
    c == ',' || c == '"' || c == '\n' || c == '\r'
}

pub open spec fn needs_quotes(s: Seq<char>) -> bool {
    exists|i: int| 0 <= i < s.len() && is_special(#[trigger] s[i])
}

/// `s` with every `"` doubled.
pub open spec fn double_quotes(s: Seq<char>) -> Seq<char>
    decreases s.len(),
{
    if s.len() == 0 {
        Seq::empty()
    } else if s.last() == '"' {
        double_quotes(s.drop_last()) + seq!['"', '"']
    } else {
        double_quotes(s.drop_last()).push(s.last())
    }
}

/// A field as RFC 4180 writes it.
pub open spec fn escape_field(s: Seq<char>) -> Seq<char> {
    if needs_quotes(s) {
        seq!['"'] + double_quotes(s) + seq!['"']
    } else {
        s
    }
}

/// A non-negative count of thousandths written with three decimals.
pub open spec fn fixed3_abs(n: nat) -> Seq<char> {
    let frac = n % 1000;
    decimal(n / 1000) + seq![
        '.',
        digit_char((frac / 100) as int),
        digit_char(((frac / 10) % 10) as int),
        digit_char((frac % 10) as int),
    ]
}

/// A signed number of thousandths written as a decimal with three places.
pub open spec fn fixed3(v: Thousandths) -> Seq<char> {
    if v.negative {
        seq!['-'] + fixed3_abs(v.magnitude as nat)
    } else {
        fixed3_abs(v.magnitude as nat)
    }
}

/// One CSV line (with its line feed) for a probe.
pub open spec fn row_line(r: ProbeRow) -> Seq<char> {
    escape_field(r.target@) + seq![','] + decimal(r.stratum as nat) + seq![',']
        + fixed3(r.offset_ms) + seq![','] + fixed3(r.rtt_ms) + seq![',']
        + signed_decimal(r.timestamp as int) + seq!['\n']
}

/// The lines of all probes, in order.
pub open spec fn rows_text(rs: Seq<ProbeRow>) -> Seq<char>
    decreases rs.len(),
{
    if rs.len() == 0 {
        Seq::empty()
    } else {
        rows_text(rs.drop_last()) + row_line(rs.last())
    }
}

/// The whole document: the header line, then one line per probe.
pub open spec fn csv_document(rs: Seq<ProbeRow>) -> Seq<char> {
    HEADER@ + seq!['\n'] + rows_text(rs)
}

fn is_special_char(c: char) -> (b: bool)
    ensures
        b == is_special(c),
{
    c == ',' || c == '"' || c == '\n' || c == '\r'
}

/// Quotes a field when it holds a comma, a quote or a line break,
/// doubling the quotes inside; leaves it unchanged otherwise.
pub fn escape_csv(s: &str) -> (out: String)
    ensures
        out@ == escape_field(s@),
{
    let n: usize = s.unicode_len();
    let mut special = false;
    let mut i: usize = 0;
    while i < n
        invariant
            n == s@.len(),
            i <= n,
            special <==> exists|j: int| 0 <= j < i && is_special(#[trigger] s@[j]),
        decreases n - i,
    {
        let c = s.get_char(i);
        if is_special_char(c) {
            special = true;
        }
        i = i + 1;
    }
    if !special {
        return String::from_str(s);
    }
    let mut out = String::new();
    push_char(&mut out, '"');
    let mut k: usize = 0;
    while k < n
        invariant
            n == s@.len(),
            k <= n,
            out@ == seq!['"'] + double_quotes(s@.take(k as int)),
        decreases n - k,
    {
        let c = s.get_char(k);
        assert(s@.take(k + 1).drop_last() =~= s@.take(k as int));
        if c == '"' {
            push_char(&mut out, '"');
            push_char(&mut out, '"');
        } else {
            push_char(&mut out, c);
        }
        k = k + 1;
    }
    assert(s@.take(n as int) =~= s@);
    push_char(&mut out, '"');
    out
}

/// Appends a signed count of thousandths with three decimals.
fn push_fixed3(out: &mut String, v: Thousandths)
    ensures
        final(out)@ == old(out)@ + fixed3(v),
{
    if v.negative {
        push_char(out, '-');
    }
    let m: u64 = v.magnitude;
    let frac: u64 = m % 1000;
    push_decimal(out, m / 1000);
    push_char(out, '.');
    push_char(out, crate::text::digit_u64(frac / 100));
    push_char(out, crate::text::digit_u64((frac / 10) % 10));
    push_char(out, crate::text::digit_u64(frac % 10));
}

fn push_row(out: &mut String, r: &ProbeRow)
    ensures
        final(out)@ == old(out)@ + row_line(*r),
{
    let target = escape_csv(r.target.as_str());
    out.append(target.as_str());
    push_char(out, ',');
    push_decimal(out, r.stratum as u64);
    push_char(out, ',');
    push_fixed3(out, r.offset_ms);
    push_char(out, ',');
    push_fixed3(out, r.rtt_ms);
    push_char(out, ',');
    push_signed_decimal(out, r.timestamp);
    push_char(out, '\n');
}

/// The CSV lines of the given probes, one per probe, without the header.
/// Writing to a `String` cannot fail, so the result is always `Ok`.
pub fn rows(results: &[ProbeRow]) -> (res: Result<String, RkikError>)
    ensures
        res is Ok,
        res->Ok_0@ == rows_text(results@),
{
    let mut out = String::new();
    let mut i: usize = 0;
    while i < results.len()
        invariant
            i <= results@.len(),
            out@ == rows_text(results@.take(i as int)),
        decreases results@.len() - i,
    {
        assert(results@.take(i + 1).drop_last() =~= results@.take(i as int));
        push_row(&mut out, &results[i]);
        i = i + 1;
    }
    assert(results@.take(results@.len() as int) =~= results@);
    Ok(out)
}

/// The CSV document: the header line, then one line per probe.
pub fn to_csv(results: &[ProbeRow]) -> (res: Result<String, RkikError>)
    ensures
        res is Ok,
        res->Ok_0@ == csv_document(results@),
{
    let mut out = String::from_str(HEADER);
    push_char(&mut out, '\n');
    let body = rows(results)?;
    out.append(body.as_str());
    Ok(out)
}

/// Reads a quoted field's body back: each doubled `"` stands for one.
pub open spec fn undouble_quotes(t: Seq<char>) -> Seq<char>
    decreases t.len(),
{
    if t.len() == 0 {
        Seq::empty()
    } else if t.len() >= 2 && t.last() == '"' && t[t.len() - 2] == '"' {
        undouble_quotes(t.take(t.len() - 2)).push('"')
    } else {
        undouble_quotes(t.drop_last()).push(t.last())
    }
}

/// Reads a field as RFC 4180 does: a field in quotes has its quotes
/// removed and its doubled quotes undoubled; any other field is taken as is.
pub open spec fn unescape_field(t: Seq<char>) -> Seq<char> {
    if t.len() >= 2 && t[0] == '"' && t.last() == '"' {
        undouble_quotes(t.subrange(1, t.len() - 1))
    } else {
        t
    }
}

proof fn lemma_undouble_double(s: Seq<char>)
    ensures
        undouble_quotes(double_quotes(s)) == s,
    decreases s.len(),
{
    if s.len() > 0 {
        let p = s.drop_last();
        lemma_undouble_double(p);
        let d = double_quotes(p);
        if s.last() == '"' {
            let t = d + seq!['"', '"'];
            assert(t.take(t.len() - 2) =~= d);
        } else {
            let t = d.push(s.last());
            assert(t.drop_last() =~= d);
        }
        assert(p.push(s.last()) =~= s);
    }
}

/// Reading back a field written by `escape_csv` gives the text it was given:
/// the quoting loses nothing, whatever commas, quotes and line breaks the
/// text holds.
pub proof fn lemma_escape_roundtrip(s: Seq<char>)
    ensures
        unescape_field(escape_field(s)) == s,
{
    if needs_quotes(s) {
        let d = double_quotes(s);
        let t = seq!['"'] + d + seq!['"'];
        assert(t.subrange(1, t.len() - 1) =~= d);
        lemma_undouble_double(s);
    } else if s.len() >= 2 {
        assert(!is_special(s[0]));
    }
}

/// The lines of a run split in batches are the lines of each batch, one
/// after the other: the header is written once, and the rows of later
/// probes follow without repeating it.
pub proof fn lemma_rows_concat(a: Seq<ProbeRow>, b: Seq<ProbeRow>)
    ensures
        rows_text(a + b) == rows_text(a) + rows_text(b),
    decreases b.len(),
{
    if b.len() == 0 {
        assert(a + b =~= a);
    } else {
        lemma_rows_concat(a, b.drop_last());
        assert((a + b).drop_last() =~= a + b.drop_last());
        assert((a + b).last() == b.last());
    }
}

/// Reads one CSV record as RFC 4180 does, one character at a time:
/// `in_quotes` tells whether the reader is inside a quoted field, `cur` is
/// the field read so far and `fields` the fields already complete. A
/// quote opens a quoted field only at the start of a field; inside one, a
/// doubled quote stands for one quote and a single quote closes it.
pub open spec fn read_record_from(
    t: Seq<char>,
    in_quotes: bool,
    cur: Seq<char>,
    fields: Seq<Seq<char>>,
) -> Seq<Seq<char>>
    decreases t.len(),
{
    if t.len() == 0 {
        fields.push(cur)
    } else if in_quotes {
        if t[0] == '"' {
            if t.len() >= 2 && t[1] == '"' {
                read_record_from(t.skip(2), true, cur.push('"'), fields)
            } else {
                read_record_from(t.skip(1), false, cur, fields)
            }
        } else {
            read_record_from(t.skip(1), true, cur.push(t[0]), fields)
        }
    } else if t[0] == ',' {
        read_record_from(t.skip(1), false, Seq::empty(), fields.push(cur))
    } else if t[0] == '"' && cur.len() == 0 {
        read_record_from(t.skip(1), true, cur, fields)
    } else {
        read_record_from(t.skip(1), false, cur.push(t[0]), fields)
    }
}

/// The fields of one CSV record (a line without its line feed).
pub open spec fn read_record(t: Seq<char>) -> Seq<Seq<char>> {
    read_record_from(t, false, Seq::empty(), Seq::empty())
}

/// Text that holds neither a comma nor a quote.
pub open spec fn plain(s: Seq<char>) -> bool {
    forall|i: int| 0 <= i < s.len() ==> s[i] != ',' && s[i] != '"'
}

proof fn lemma_digit_plain(d: int)
    ensures
        digit_char(d) != ',' && digit_char(d) != '"',
{
}

proof fn lemma_decimal_plain(n: nat)
    ensures
        plain(decimal(n)),
    decreases n,
{
    lemma_digit_plain(n as int);
    lemma_digit_plain((n % 10) as int);
    if n >= 10 {
        lemma_decimal_plain(n / 10);
    }
}

proof fn lemma_signed_plain(v: int)
    ensures
        plain(signed_decimal(v)),
{
    let a: nat = if v < 0 { (-v) as nat } else { v as nat };
    lemma_decimal_plain(a);
}

proof fn lemma_fixed3_plain(v: Thousandths)
    ensures
        plain(fixed3(v)),
{
    let a: nat = v.magnitude as nat;
    lemma_decimal_plain(a / 1000);
    let frac = a % 1000;
    lemma_digit_plain((frac / 100) as int);
    lemma_digit_plain(((frac / 10) % 10) as int);
    lemma_digit_plain((frac % 10) as int);
    assert(plain(fixed3_abs(a)));
}

proof fn lemma_read_plain(s: Seq<char>, rest: Seq<char>, cur: Seq<char>, fields: Seq<Seq<char>>)
    requires
        plain(s),
    ensures
        read_record_from(s + rest, false, cur, fields) == read_record_from(rest, false, cur + s, fields),
    decreases s.len(),
{
    if s.len() == 0 {
        assert(s + rest =~= rest);
        assert(cur + s =~= cur);
    } else {
        let t = s + rest;
        assert(t[0] == s[0]);
        assert(t.skip(1) =~= s.skip(1) + rest);
        lemma_read_plain(s.skip(1), rest, cur.push(s[0]), fields);
        assert(cur.push(s[0]) + s.skip(1) =~= cur + s);
    }
}

proof fn lemma_double_quotes_prepend(c: char, s: Seq<char>)
    ensures
        double_quotes(seq![c] + s) == (if c == '"' { seq!['"', '"'] } else { seq![c] }) + double_quotes(s),
    decreases s.len(),
{
    let p: Seq<char> = if c == '"' { seq!['"', '"'] } else { seq![c] };
    if s.len() == 0 {
        assert(seq![c] + s =~= seq![c]);
        assert(seq![c].drop_last() =~= Seq::<char>::empty());
        assert(double_quotes(Seq::<char>::empty()) == Seq::<char>::empty());
        assert(double_quotes(seq![c]) =~= p);
    } else {
        lemma_double_quotes_prepend(c, s.drop_last());
        assert((seq![c] + s).drop_last() =~= seq![c] + s.drop_last());
        assert((seq![c] + s).last() == s.last());
        if s.last() == '"' {
            assert(double_quotes(seq![c] + s) =~= p + double_quotes(s));
        } else {
            assert(double_quotes(seq![c] + s) =~= p + double_quotes(s));
        }
    }
}

proof fn lemma_read_quoted(s: Seq<char>, rest: Seq<char>, cur: Seq<char>, fields: Seq<Seq<char>>)
    requires
        rest.len() == 0 || rest[0] != '"',
    ensures
        read_record_from(double_quotes(s) + seq!['"'] + rest, true, cur, fields)
            == read_record_from(rest, false, cur + s, fields),
    decreases s.len(),
{
    if s.len() == 0 {
        let t = double_quotes(s) + seq!['"'] + rest;
        assert(t =~= seq!['"'] + rest);
        assert(t.skip(1) =~= rest);
        assert(cur + s =~= cur);
    } else {
        let c = s[0];
        let tail = s.skip(1);
        assert(seq![c] + tail =~= s);
        lemma_double_quotes_prepend(c, tail);
        lemma_read_quoted(tail, rest, if c == '"' { cur.push('"') } else { cur.push(c) }, fields);
        let t = double_quotes(s) + seq!['"'] + rest;
        if c == '"' {
            assert(t =~= seq!['"', '"'] + (double_quotes(tail) + seq!['"'] + rest));
            assert(t.skip(2) =~= double_quotes(tail) + seq!['"'] + rest);
        } else {
            assert(t =~= seq![c] + (double_quotes(tail) + seq!['"'] + rest));
            assert(t.skip(1) =~= double_quotes(tail) + seq!['"'] + rest);
        }
        assert(cur.push(c) + tail =~= cur + s);
    }
}

/// Reading a field written by `escape_csv`, followed by the rest of its
/// record, yields the text it was given and continues after the field.
proof fn lemma_read_escaped(s: Seq<char>, rest: Seq<char>, fields: Seq<Seq<char>>)
    requires
        rest.len() == 0 || rest[0] == ',',
    ensures
        read_record_from(escape_field(s) + rest, false, Seq::empty(), fields)
            == read_record_from(rest, false, s, fields),
{
    if needs_quotes(s) {
        let t = escape_field(s) + rest;
        assert(t =~= seq!['"'] + (double_quotes(s) + seq!['"'] + rest));
        assert(t.skip(1) =~= double_quotes(s) + seq!['"'] + rest);
        lemma_read_quoted(s, rest, Seq::empty(), fields);
        assert(Seq::<char>::empty() + s =~= s);
    } else {
        assert(plain(s)) by {
            assert forall|i: int| 0 <= i < s.len() implies s[i] != ',' && s[i] != '"' by {
                if s[i] == ',' || s[i] == '"' {
                    assert(is_special(s[i]));
                }
            }
        }
        lemma_read_plain(s, rest, Seq::empty(), fields);
        assert(Seq::<char>::empty() + s =~= s);
    }
}

/// A CSV line written for a probe reads back as exactly five fields: the
/// target's name as given, then the stratum, offset, delay and timestamp
/// as written.
pub proof fn lemma_row_reads_back(r: ProbeRow)
    ensures
        read_record(row_line(r).drop_last()) == seq![
            r.target@,
            decimal(r.stratum as nat),
            fixed3(r.offset_ms),
            fixed3(r.rtt_ms),
            signed_decimal(r.timestamp as int),
        ],
{
    let f0 = r.target@;
    let f1 = decimal(r.stratum as nat);
    let f2 = fixed3(r.offset_ms);
    let f3 = fixed3(r.rtt_ms);
    let f4 = signed_decimal(r.timestamp as int);
    lemma_decimal_plain(r.stratum as nat);
    lemma_fixed3_plain(r.offset_ms);
    lemma_fixed3_plain(r.rtt_ms);
    lemma_signed_plain(r.timestamp as int);
    let comma: Seq<char> = seq![','];
    let e: Seq<Seq<char>> = Seq::empty();
    let r4 = f4;
    let r3 = comma + r4;
    let r2 = comma + (f3 + r3);
    let r1 = comma + (f2 + r2);
    let r0 = comma + (f1 + r1);
    let t = escape_field(f0) + r0;
    assert(row_line(r).drop_last() =~= t);
    lemma_read_escaped(f0, r0, e);
    assert(r0.skip(1) =~= f1 + r1);
    lemma_read_plain(f1, r1, Seq::empty(), e.push(f0));
    assert(Seq::<char>::empty() + f1 =~= f1);
    assert(r1.skip(1) =~= f2 + r2);
    lemma_read_plain(f2, r2, Seq::empty(), e.push(f0).push(f1));
    assert(Seq::<char>::empty() + f2 =~= f2);
    assert(r2.skip(1) =~= f3 + r3);
    lemma_read_plain(f3, r3, Seq::empty(), e.push(f0).push(f1).push(f2));
    assert(Seq::<char>::empty() + f3 =~= f3);
    assert(r3.skip(1) =~= f4);
    assert(f4 =~= f4 + Seq::<char>::empty());
    lemma_read_plain(f4, Seq::empty(), Seq::empty(), e.push(f0).push(f1).push(f2).push(f3));
    assert(Seq::<char>::empty() + f4 =~= f4);
    assert(e.push(f0).push(f1).push(f2).push(f3).push(f4) =~= seq![f0, f1, f2, f3, f4]);
}

} // verus!

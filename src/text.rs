//! Text helpers: decimal numbers, thousands separators, editing a text field
//! at a cursor, cutting text for display, and choosing a file name that does
//! not collide with existing ones.

use vstd::prelude::*;
use vstd::string::*;

verus! {

/// The character of decimal digit `d`.
pub open spec fn digit_char(d: nat) -> char {
    if d == 0 { '0' } else if d == 1 { '1' } else if d == 2 { '2' } else if d == 3 { '3' }
    else if d == 4 { '4' } else if d == 5 { '5' } else if d == 6 { '6' } else if d == 7 { '7' }
    else if d == 8 { '8' } else { '9' }
}

/// The decimal representation of `n`, without leading zeros.
pub open spec fn decimal(n: nat) -> Seq<char>
    decreases n,
{
    if n < 10 {
        seq![digit_char(n)]
    } else {
        decimal(n / 10).push(digit_char(n % 10))
    }
}

/// The three digits of `m < 1000`, padded with zeros.
pub open spec fn three_digits(m: nat) -> Seq<char> {
    seq![digit_char(m / 100), digit_char((m / 10) % 10), digit_char(m % 10)]
}

/// The decimal representation of `n` with a comma between groups of three
/// digits, counted from the right.
pub open spec fn grouped(n: nat) -> Seq<char>
    decreases n,
{
    if n < 1000 {
        decimal(n)
    } else {
        grouped(n / 1000) + seq![','] + three_digits(n % 1000)
    }
}

/// Relies on String::push: appends one character.
#[verifier::external_body]
fn push_char(s: &mut String, c: char)
    ensures
        final(s)@ == old(s)@.push(c),
{
    s.push(c)
}

/// Appends `c` to `s`.
pub fn push_char_to(s: &mut String, c: char)
    ensures
        final(s)@ == old(s)@.push(c),
{
    push_char(s, c)
}

fn digit(d: u64) -> (c: char)
    requires
        d < 10,
    ensures
        c == digit_char(d as nat),
{
    match d {
        0 => '0',
        1 => '1',
        2 => '2',
        3 => '3',
        4 => '4',
        5 => '5',
        6 => '6',
        7 => '7',
        8 => '8',
        _ => '9',
    }
}

/// The decimal representation of `n`.
pub fn to_decimal(n: u64) -> (r: String)
    ensures
        r@ == decimal(n as nat),
    decreases n,
{
    if n < 10 {
        let mut s = String::new();
        push_char(&mut s, digit(n));
        s
    } else {
        let mut s = to_decimal(n / 10);
        push_char(&mut s, digit(n % 10));
        s
    }
}

/// `n` in decimal with thousands separators, as in `1,234,567`.
pub fn format_number(n: u64) -> (r: String)
    ensures
        r@ == grouped(n as nat),
    decreases n,
{
    if n < 1000 {
        to_decimal(n)
    } else {
        let mut s = format_number(n / 1000);
        let m = n % 1000;
        push_char(&mut s, ',');
        push_char(&mut s, digit(m / 100));
        push_char(&mut s, digit((m / 10) % 10));
        push_char(&mut s, digit(m % 10));
        proof {
            assert(s@ =~= grouped(n as nat));
        }
        s
    }
}

/// A new string holding `a` followed by `b`.
pub fn concat_str(a: &str, b: &str) -> (r: String)
    ensures
        r@ == a@ + b@,
{
    let mut s = a.to_owned();
    s.append(b);
    s
}

/// The characters of `s` from `from` up to, not including, `to`.
pub fn substring(s: &String, from: usize, to: usize) -> (r: String)
    requires
        from <= to <= s@.len(),
    ensures
        r@ == s@.subrange(from as int, to as int),
{
    s.as_str().substring_char(from, to).to_owned()
}

/// `s` with `c` inserted before the character at position `at`.
pub fn insert_char(s: &String, at: usize, c: char) -> (r: String)
    requires
        at <= s@.len(),
    ensures
        r@ == s@.subrange(0, at as int) + seq![c] + s@.subrange(at as int, s@.len() as int),
{
    let len = s.as_str().unicode_len();
    let mut r = substring(s, 0, at);
    push_char(&mut r, c);
    r.append(s.as_str().substring_char(at, len));
    r
}

/// `s` without the character at position `at`.
pub fn remove_char(s: &String, at: usize) -> (r: String)
    requires
        at < s@.len(),
    ensures
        r@ == s@.subrange(0, at as int) + s@.subrange(at as int + 1, s@.len() as int),
{
    let len = s.as_str().unicode_len();
    let mut r = substring(s, 0, at);
    r.append(s.as_str().substring_char(at + 1, len));
    r
}

/// `s` with `c` inserted before position `at`.
pub open spec fn inserted(s: Seq<char>, at: int, c: char) -> Seq<char> {
    s.subrange(0, at) + seq![c] + s.subrange(at, s.len() as int)
}

/// `s` without the character at position `at`.
pub open spec fn removed(s: Seq<char>, at: int) -> Seq<char> {
    s.subrange(0, at) + s.subrange(at + 1, s.len() as int)
}

/// `s` cut for display: when longer than `max` characters, its first `keep`
/// characters followed by `...`; otherwise `s` itself.
pub open spec fn shortened(s: Seq<char>, max: nat, keep: nat) -> Seq<char> {
    if s.len() > max {
        s.subrange(0, keep as int) + seq!['.', '.', '.']
    } else {
        s
    }
}

/// Cuts `s` for display (see `shortened`); the stored text is not changed.
pub fn shorten(s: &String, max: usize, keep: usize) -> (r: String)
    requires
        keep <= max,
    ensures
        r@ == shortened(s@, max as nat, keep as nat),
{
    let len = s.as_str().unicode_len();
    if len > max {
        let mut r = substring(s, 0, keep);
        r.append("...");
        proof {
            reveal_strlit("...");
            assert(r@ =~= shortened(s@, max as nat, keep as nat));
        }
        r
    } else {
        s.clone()
    }
}

/// The first `n` characters of `s`, or all of `s` when it is shorter.
pub open spec fn prefix_of(s: Seq<char>, n: nat) -> Seq<char> {
    if s.len() >= n { s.subrange(0, n as int) } else { s }
}

/// The first `n` characters of `s`, or all of `s` when it is shorter.
pub fn take_prefix(s: &String, n: usize) -> (r: String)
    ensures
        r@ == prefix_of(s@, n as nat),
{
    let len = s.as_str().unicode_len();
    if len >= n { substring(s, 0, n) } else { s.clone() }
}

/// The items of `items` joined with `sep` between neighbours.
pub open spec fn joined(items: Seq<Seq<char>>, sep: Seq<char>) -> Seq<char>
    decreases items.len(),
{
    if items.len() == 0 {
        Seq::empty()
    } else if items.len() == 1 {
        items[0]
    } else {
        joined(items.drop_last(), sep) + sep + items.last()
    }
}

/// The text of each string of `v`.
pub open spec fn views_of(v: Seq<String>) -> Seq<Seq<char>> {
    v.map_values(|s: String| s@)
}

/// The strings of `items` joined with `sep` between neighbours.
pub fn join(items: &Vec<String>, sep: &str) -> (r: String)
    ensures
        r@ == joined(views_of(items@), sep@),
{
    let ghost views = views_of(items@);
    let mut r = String::new();
    let mut i: usize = 0;
    while i < items.len()
        invariant
            i <= items@.len(),
            views == views_of(items@),
            r@ == joined(views.subrange(0, i as int), sep@),
        decreases items@.len() - i,
    {
        proof {
            assert(views.subrange(0, i as int + 1).drop_last() =~= views.subrange(0, i as int));
        }
        if i > 0 {
            r.append(sep);
        } else {
            assert(r@ =~= Seq::<char>::empty());
        }
        r.append(items[i].as_str());
        i = i + 1;
    }
    proof {
        assert(views.subrange(0, i as int) =~= views);
    }
    r
}

/// Two digits, `0` padded, of `m < 100`.
pub open spec fn two_digits(m: nat) -> Seq<char> {
    seq![digit_char(m / 10), digit_char(m % 10)]
}

/// `bytes / unit` in hundredths, rounded to the nearest, ties to even.
pub open spec fn hundredths(bytes: nat, unit: nat) -> nat {
    let q = (bytes * 100) / unit;
    let rem = (bytes * 100) % unit;
    if 2 * rem > unit || (2 * rem == unit && q % 2 == 1) { q + 1 } else { q }
}

/// `bytes / unit` with two decimals, then the unit's name.
pub open spec fn scaled(bytes: nat, unit: nat, name: Seq<char>) -> Seq<char> {
    let h = hundredths(bytes, unit);
    decimal(h / 100) + seq!['.'] + two_digits(h % 100) + seq![' '] + name
}

/// A byte count for people: in GB, MB or KB (of 1024) with two decimals
/// from 1 KB on, in bytes below.
pub open spec fn size_text(bytes: nat) -> Seq<char> {
    let kb: nat = 1024;
    if bytes >= kb * kb * kb {
        scaled(bytes, kb * kb * kb, "GB"@)
    } else if bytes >= kb * kb {
        scaled(bytes, kb * kb, "MB"@)
    } else if bytes >= kb {
        scaled(bytes, kb, "KB"@)
    } else {
        decimal(bytes) + " B"@
    }
}

fn scale(bytes: u64, unit: u64, name: &str) -> (r: String)
    requires
        unit > 0,
    ensures
        r@ == scaled(bytes as nat, unit as nat, name@),
{
    let b: u128 = bytes as u128 * 100;
    let u: u128 = unit as u128;
    let q: u128 = b / u;
    let rem: u128 = b % u;
    proof {
        assert(q <= b) by (nonlinear_arith)
            requires u > 0, q == b / u, b >= 0;
        assert(rem < u) by (nonlinear_arith)
            requires u > 0, rem == b % u;
    }
    let h: u128 = if 2 * rem > u || (2 * rem == u && q % 2 == 1) { q + 1 } else { q };
    let whole: u64 = (h / 100) as u64;
    let frac: u64 = (h % 100) as u64;
    let mut r = to_decimal(whole);
    push_char(&mut r, '.');
    push_char(&mut r, digit(frac / 10));
    push_char(&mut r, digit(frac % 10));
    push_char(&mut r, ' ');
    r.append(name);
    proof {
        assert(r@ =~= scaled(bytes as nat, unit as nat, name@));
    }
    r
}

/// `bytes` for people, as in `1.50 MB` or `512 B` (see `size_text`).
pub fn format_size(bytes: u64) -> (r: String)
    ensures
        r@ == size_text(bytes as nat),
{
    proof {
        reveal_strlit("GB");
        reveal_strlit("MB");
        reveal_strlit("KB");
        reveal_strlit(" B");
    }
    let kb: u64 = 1024;
    if bytes >= kb * kb * kb {
        scale(bytes, kb * kb * kb, "GB")
    } else if bytes >= kb * kb {
        scale(bytes, kb * kb, "MB")
    } else if bytes >= kb {
        scale(bytes, kb, "KB")
    } else {
        concat_str(to_decimal(bytes).as_str(), " B")
    }
}

/// The characters of `s` in order.
pub fn chars_of(s: &str) -> (r: Vec<char>)
    ensures
        r@ == s@,
{
    let len = s.unicode_len();
    let mut r: Vec<char> = Vec::new();
    let mut i: usize = 0;
    while i < len
        invariant
            i <= len,
            len == s@.len(),
            r@ == s@.subrange(0, i as int),
        decreases len - i,
    {
        r.push(s.get_char(i));
        proof {
            assert(r@ =~= s@.subrange(0, i as int + 1));
        }
        i = i + 1;
    }
    proof {
        assert(s@.subrange(0, len as int) =~= s@);
    }
    r
}

/// Position of the first line feed in `s`, or -1 when there is none.
pub open spec fn first_newline(s: Seq<char>) -> int
    decreases s.len(),
{
    if s.len() == 0 {
        -1
    } else if s[0] == '\n' {
        0
    } else if first_newline(s.drop_first()) == -1 {
        -1
    } else {
        first_newline(s.drop_first()) + 1
    }
}

/// A line without the carriage return that ended it.
pub open spec fn without_cr(l: Seq<char>) -> Seq<char> {
    if l.len() > 0 && l.last() == '\r' { l.drop_last() } else { l }
}

/// The lines of `s`: split after each line feed, the line feed and a
/// carriage return before it dropped; no line follows a final line feed.
pub open spec fn lines_of(s: Seq<char>) -> Seq<Seq<char>>
    decreases s.len(),
{
    if s.len() == 0 {
        Seq::empty()
    } else if first_newline(s) < 0 || first_newline(s) >= s.len() {
        seq![s]
    } else {
        seq![without_cr(s.subrange(0, first_newline(s)))]
            + lines_of(s.subrange(first_newline(s) + 1, s.len() as int))
    }
}

/// The first `n` lines of `s`, or all of them when there are fewer.
pub open spec fn first_lines(s: Seq<char>, n: nat) -> Seq<Seq<char>> {
    if lines_of(s).len() <= n { lines_of(s) } else { lines_of(s).subrange(0, n as int) }
}

proof fn lemma_first_newline_at(s: Seq<char>, m: int)
    requires
        0 <= m < s.len(),
        s[m] == '\n',
        forall|k: int| 0 <= k < m ==> s[k] != '\n',
    ensures
        first_newline(s) == m,
    decreases m,
{
    if m > 0 {
        lemma_first_newline_at(s.drop_first(), m - 1);
    }
}

proof fn lemma_first_newline_none(s: Seq<char>)
    requires
        forall|k: int| 0 <= k < s.len() ==> s[k] != '\n',
    ensures
        first_newline(s) == -1,
    decreases s.len(),
{
    if s.len() > 0 {
        lemma_first_newline_none(s.drop_first());
    }
}

fn line_from(cs: &Vec<char>, from: usize, to: usize, strip: bool) -> (r: String)
    requires
        from <= to <= cs@.len(),
    ensures
        r@ == if strip { without_cr(cs@.subrange(from as int, to as int)) } else { cs@.subrange(from as int, to as int) },
{
    let end: usize = if strip && to > from && cs[to - 1] == '\r' { to - 1 } else { to };
    let mut r = String::new();
    let mut i: usize = from;
    while i < end
        invariant
            from <= i <= end <= to <= cs@.len(),
            r@ == cs@.subrange(from as int, i as int),
        decreases end - i,
    {
        push_char(&mut r, cs[i]);
        proof {
            assert(r@ =~= cs@.subrange(from as int, i as int + 1));
        }
        i = i + 1;
    }
    proof {
        if strip {
            assert(r@ =~= without_cr(cs@.subrange(from as int, to as int)));
        } else {
            assert(r@ =~= cs@.subrange(from as int, to as int));
        }
    }
    r
}

/// The first `max_lines` lines of `text` (see `lines_of`), joined with line
/// feeds.
pub fn clamp_text_lines(text: &str, max_lines: usize) -> (r: String)
    ensures
        r@ == joined(first_lines(text@, max_lines as nat), seq!['\n']),
{
    let cs = chars_of(text);
    let len = cs.len();
    let ghost s = text@;
    let mut lines: Vec<String> = Vec::new();
    let mut pos: usize = 0;
    proof {
        assert(s.subrange(0, len as int) =~= s);
        assert(views_of(lines@) =~= Seq::<Seq<char>>::empty());
        assert(views_of(lines@) + lines_of(s) =~= lines_of(s));
    }
    while pos < len && lines.len() < max_lines
        invariant
            pos <= len,
            len == s.len(),
            cs@ == s,
            lines@.len() <= max_lines,
            views_of(lines@) + lines_of(s.subrange(pos as int, len as int)) == lines_of(s),
        decreases len - pos,
    {
        let ghost rest = s.subrange(pos as int, len as int);
        let mut j: usize = pos;
        while j < len && cs[j] != '\n'
            invariant
                pos <= j <= len,
                len == s.len(),
                cs@ == s,
                forall|k: int| pos <= k < j ==> s[k] != '\n',
            decreases len - j,
        {
            j = j + 1;
        }
        let line = line_from(&cs, pos, j, j < len);
        let ghost before = lines@;
        lines.push(line);
        proof {
            if j < len {
                lemma_first_newline_at(rest, j - pos);
                assert(rest.subrange(0, j - pos) =~= s.subrange(pos as int, j as int));
                assert(rest.subrange(j - pos + 1, rest.len() as int) =~= s.subrange(j + 1, len as int));
            } else {
                lemma_first_newline_none(rest);
                assert(rest =~= s.subrange(pos as int, j as int));
                assert(lines_of(rest) == seq![rest]);
            }
            assert(views_of(lines@) =~= views_of(before).push(line@));
            assert(views_of(before) + lines_of(rest) == lines_of(s));
        }
        if j < len {
            pos = j + 1;
        } else {
            pos = len;
            proof {
                assert(s.subrange(len as int, len as int) =~= Seq::<char>::empty());
            }
        }
    }
    let r = join(&lines, "\n");
    proof {
        reveal_strlit("\n");
        assert("\n"@ =~= seq!['\n']);
        if pos >= len {
            assert(s.subrange(pos as int, len as int) =~= Seq::<char>::empty());
            assert(views_of(lines@) =~= lines_of(s));
        } else {
            assert(lines@.len() == max_lines);
            assert(lines_of(s).subrange(0, max_lines as int) =~= views_of(lines@));
        }
        assert(views_of(lines@) =~= first_lines(s, max_lines as nat));
    }
    r
}

/// The characters with the Unicode White_Space property.
pub open spec fn white_space(c: char) -> bool {
    ('\u{9}' <= c && c <= '\u{d}') || c == ' ' || c == '\u{85}' || c == '\u{a0}' || c == '\u{1680}'
        || ('\u{2000}' <= c && c <= '\u{200a}') || c == '\u{2028}' || c == '\u{2029}'
        || c == '\u{202f}' || c == '\u{205f}' || c == '\u{3000}'
}

/// Whether `c` has the Unicode White_Space property.
pub fn is_white_space(c: char) -> (r: bool)
    ensures
        r == white_space(c),
{
    ('\u{9}' <= c && c <= '\u{d}') || c == ' ' || c == '\u{85}' || c == '\u{a0}' || c == '\u{1680}'
        || ('\u{2000}' <= c && c <= '\u{200a}') || c == '\u{2028}' || c == '\u{2029}'
        || c == '\u{202f}' || c == '\u{205f}' || c == '\u{3000}'
}

/// Whether `s` holds nothing but white space.
pub open spec fn blank(s: Seq<char>) -> bool {
    forall|i: int| 0 <= i < s.len() ==> white_space(#[trigger] s[i])
}

/// Whether `s` holds nothing but white space.
pub fn is_blank(s: &String) -> (r: bool)
    ensures
        r == blank(s@),
{
    let cs = chars_of(s.as_str());
    let mut i: usize = 0;
    while i < cs.len()
        invariant
            i <= cs@.len(),
            cs@ == s@,
            forall|k: int| 0 <= k < i ==> white_space(#[trigger] s@[k]),
        decreases cs@.len() - i,
    {
        if !is_white_space(cs[i]) {
            return false;
        }
        i = i + 1;
    }
    true
}

} // verus!

//! Character-level helpers on strings, each with its specification.
//!
//! Strings are modelled by their views, sequences of `char`.

use vstd::prelude::*;
use vstd::string::*;

verus! {

/// `String::push` of std: appends one character at the end of the string.
#[verifier::external_body]
pub(crate) fn push_char(s: &mut String, c: char)
    ensures
        final(s)@ == old(s)@.push(c),
{
    s.push(c);
}

/// The characters of `s`, in order.
pub fn chars_of(s: &str) -> (out: Vec<char>)
    ensures
        out@ == s@,
{
    let mut out: Vec<char> = Vec::new();
    for c in it: s.chars()
        invariant
            out@ == it.seq().take(it.index() as int),
    {
        out.push(c);
    }
    out
}

/// Appends the characters `cs[from..to]` to `s`.
pub fn push_chars(s: &mut String, cs: &Vec<char>, from: usize, to: usize)
    requires
        from <= to <= cs.len(),
    ensures
        final(s)@ == old(s)@ + cs@.subrange(from as int, to as int),
{
    let mut i = from;
    while i < to
        invariant
            from <= i <= to <= cs.len(),
            s@ == old(s)@ + cs@.subrange(from as int, i as int),
        decreases to - i,
    {
        push_char(s, cs[i]);
        assert(cs@.subrange(from as int, i + 1) == cs@.subrange(from as int, i as int).push(
            cs@[i as int],
        ));
        i = i + 1;
    }
}

/// A string holding exactly the characters of `s`.
pub fn string_of(s: &str) -> (out: String)
    ensures
        out@ == s@,
{
    let mut out = String::new();
    out.append(s);
    out
}

/// Whether `a` and `b` hold the same characters.
pub fn str_eq(a: &str, b: &str) -> (res: bool)
    ensures
        res == (a@ == b@),
{
    let x = chars_of(a);
    let y = chars_of(b);
    if x.len() != y.len() {
        return false;
    }
    let mut i: usize = 0;
    while i < x.len()
        invariant
            x@ == a@,
            y@ == b@,
            x.len() == y.len(),
            i <= x.len(),
            forall|j: int| 0 <= j < i ==> x@[j] == y@[j],
        decreases x.len() - i,
    {
        if x[i] != y[i] {
            return false;
        }
        i = i + 1;
    }
    assert(x@ =~= y@);
    true
}

/// Whether `s` begins with `prefix`.
pub open spec fn has_prefix(s: Seq<char>, prefix: Seq<char>) -> bool {
    prefix.len() <= s.len() && s.take(prefix.len() as int) == prefix
}

/// Whether `s` begins with `prefix`.
pub fn starts_with(s: &str, prefix: &str) -> (res: bool)
    ensures
        res == has_prefix(s@, prefix@),
{
    let x = chars_of(s);
    let p = chars_of(prefix);
    if p.len() > x.len() {
        return false;
    }
    let mut i: usize = 0;
    while i < p.len()
        invariant
            x@ == s@,
            p@ == prefix@,
            p.len() <= x.len(),
            i <= p.len(),
            forall|j: int| 0 <= j < i ==> x@[j] == p@[j],
        decreases p.len() - i,
    {
        if x[i] != p[i] {
            assert(s@.take(prefix@.len() as int)[i as int] != prefix@[i as int]);
            return false;
        }
        i = i + 1;
    }
    assert(s@.take(prefix@.len() as int) =~= prefix@);
    true
}

/// The Unicode `White_Space` property, which `char::is_whitespace` and
/// `str::trim` go by.
pub open spec fn is_white_space(c: char) -> bool {
    let u = c as u32;
    ||| 0x09 <= u <= 0x0d
    ||| u == 0x20
    ||| u == 0x85
    ||| u == 0xa0
    ||| u == 0x1680
    ||| 0x2000 <= u <= 0x200a
    ||| u == 0x2028
    ||| u == 0x2029
    ||| u == 0x202f
    ||| u == 0x205f
    ||| u == 0x3000
}

/// Whether `c` has the Unicode `White_Space` property.
pub fn white_space(c: char) -> (res: bool)
    ensures
        res == is_white_space(c),
{
    let u = c as u32;
    (0x09 <= u && u <= 0x0d) || u == 0x20 || u == 0x85 || u == 0xa0 || u == 0x1680 || (0x2000
        <= u && u <= 0x200a) || u == 0x2028 || u == 0x2029 || u == 0x202f || u == 0x205f || u
        == 0x3000
}

/// Whether `s` holds only white space (what `s.trim().is_empty()` tests).
pub open spec fn is_blank(s: Seq<char>) -> bool {
    forall|i: int| 0 <= i < s.len() ==> is_white_space(#[trigger] s[i])
}

/// `s` without its leading white space.
pub open spec fn trim_start(s: Seq<char>) -> Seq<char>
    decreases s.len(),
{
    if s.len() > 0 && is_white_space(s[0]) {
        trim_start(s.drop_first())
    } else {
        s
    }
}

/// `s` without its trailing white space.
pub open spec fn trim_end(s: Seq<char>) -> Seq<char>
    decreases s.len(),
{
    if s.len() > 0 && is_white_space(s.last()) {
        trim_end(s.drop_last())
    } else {
        s
    }
}

/// `s` without leading and trailing white space, as `str::trim` gives it.
pub open spec fn trim(s: Seq<char>) -> Seq<char> {
    trim_end(trim_start(s))
}

proof fn lemma_trim_start_skip(s: Seq<char>, i: int)
    requires
        0 <= i <= s.len(),
        forall|j: int| 0 <= j < i ==> is_white_space(#[trigger] s[j]),
    ensures
        trim_start(s) == trim_start(s.skip(i)),
    decreases i,
{
    if i > 0 {
        assert(s.drop_first().skip(i - 1) =~= s.skip(i));
        assert forall|j: int| 0 <= j < i - 1 implies is_white_space(
            #[trigger] s.drop_first()[j],
        ) by {
            assert(s.drop_first()[j] == s[j + 1]);
        }
        lemma_trim_start_skip(s.drop_first(), i - 1);
    } else {
        assert(s.skip(0) =~= s);
    }
}

proof fn lemma_trim_end_take(s: Seq<char>, k: int)
    requires
        0 <= k <= s.len(),
        forall|j: int| k <= j < s.len() ==> is_white_space(#[trigger] s[j]),
    ensures
        trim_end(s) == trim_end(s.take(k)),
    decreases s.len() - k,
{
    if k < s.len() {
        assert(s.drop_last().take(k) =~= s.take(k));
        assert forall|j: int| k <= j < s.len() - 1 implies is_white_space(
            #[trigger] s.drop_last()[j],
        ) by {
            assert(s.drop_last()[j] == s[j]);
        }
        lemma_trim_end_take(s.drop_last(), k);
    } else {
        assert(s.take(k) =~= s);
    }
}

/// Trimming a blank string leaves nothing, and only a blank string trims to nothing.
pub proof fn lemma_trim_empty_iff_blank(s: Seq<char>)
    ensures
        (trim(s).len() == 0) == is_blank(s),
    decreases s.len(),
{
    if s.len() == 0 {
    } else if is_white_space(s[0]) {
        lemma_trim_empty_iff_blank(s.drop_first());
        if is_blank(s.drop_first()) {
            assert forall|i: int| 0 <= i < s.len() implies is_white_space(#[trigger] s[i]) by {
                if i > 0 {
                    assert(s[i] == s.drop_first()[i - 1]);
                }
            }
        } else {
            let i = choose|i: int|
                0 <= i < s.drop_first().len() && !is_white_space(#[trigger] s.drop_first()[i]);
            assert(s[i + 1] == s.drop_first()[i]);
        }
    } else {
        assert(trim_start(s) == s);
        lemma_trim_end_keeps_first(s);
    }
}

proof fn lemma_trim_end_keeps_first(s: Seq<char>)
    requires
        s.len() > 0,
        !is_white_space(s[0]),
    ensures
        trim_end(s).len() > 0,
    decreases s.len(),
{
    if is_white_space(s.last()) {
        lemma_trim_end_keeps_first(s.drop_last());
    }
}

/// Whether `s` holds only white space.
pub fn blank(s: &str) -> (res: bool)
    ensures
        res == is_blank(s@),
{
    let cs = chars_of(s);
    let mut i: usize = 0;
    while i < cs.len()
        invariant
            cs@ == s@,
            i <= cs.len(),
            forall|j: int| 0 <= j < i ==> is_white_space(#[trigger] cs@[j]),
        decreases cs.len() - i,
    {
        if !white_space(cs[i]) {
            return false;
        }
        i = i + 1;
    }
    true
}

/// `s` without leading and trailing white space.
pub fn trimmed(s: &str) -> (out: String)
    ensures
        out@ == trim(s@),
{
    let cs = chars_of(s);
    let mut start: usize = 0;
    while start < cs.len() && white_space(cs[start])
        invariant
            cs@ == s@,
            start <= cs.len(),
            forall|j: int| 0 <= j < start ==> is_white_space(#[trigger] cs@[j]),
        decreases cs.len() - start,
    {
        start = start + 1;
    }
    proof {
        lemma_trim_start_skip(s@, start as int);
        if start < cs.len() {
            assert(!is_white_space(s@.skip(start as int)[0]));
        }
    }
    let ghost rest = s@.skip(start as int);
    assert(trim_start(s@) == rest);
    let mut end: usize = cs.len();
    while end > start && white_space(cs[end - 1])
        invariant
            cs@ == s@,
            start <= end <= cs.len(),
            rest == s@.skip(start as int),
            forall|j: int| end - start <= j < rest.len() ==> is_white_space(#[trigger] rest[j]),
        decreases end,
    {
        end = end - 1;
    }
    proof {
        lemma_trim_end_take(rest, end - start);
        let t = rest.take(end - start);
        if end > start {
            assert(t.last() == cs@[end - 1]);
        }
        assert(trim_end(t) == t);
        assert(t =~= cs@.subrange(start as int, end as int));
    }
    let mut out = String::new();
    push_chars(&mut out, &cs, start, end);
    out
}

/// The decimal digit for `d < 10`.
pub open spec fn digit_char(d: nat) -> char {
    (48 + d) as char
}

/// The decimal rendering of `n`, without leading zeros.
pub open spec fn decimal(n: nat) -> Seq<char>
    decreases n,
{
    if n < 10 {
        seq![digit_char(n)]
    } else {
        decimal(n / 10).push(digit_char(n % 10))
    }
}

/// The decimal rendering of `i`, with a leading `-` when it is negative.
pub open spec fn signed_decimal(i: int) -> Seq<char> {
    if i < 0 {
        seq!['-'] + decimal((-i) as nat)
    } else {
        decimal(i as nat)
    }
}

fn digit(d: u64) -> (c: char)
    requires
        d < 10,
    ensures
        c == digit_char(d as nat),
{
    let b: u8 = 48 + d as u8;
    b as char
}

/// Appends the decimal rendering of `n` to `s`.
pub fn push_decimal(s: &mut String, n: u64)
    ensures
        final(s)@ == old(s)@ + decimal(n as nat),
    decreases n,
{
    if n >= 10 {
        push_decimal(s, n / 10);
    }
    push_char(s, digit(n % 10));
}

/// Appends the decimal rendering of `i`, sign included, to `s`.
pub fn push_signed_decimal(s: &mut String, i: i32)
    ensures
        final(s)@ == old(s)@ + signed_decimal(i as int),
{
    if i < 0 {
        push_char(s, '-');
        let magnitude: u64 = (0 - (i as i64)) as u64;
        push_decimal(s, magnitude);
        assert(s@ =~= old(s)@ + signed_decimal(i as int));
    } else {
        push_decimal(s, i as u64);
    }
}

/// The rendering of a boolean as `{}` formats it.
pub open spec fn bool_text(b: bool) -> Seq<char> {
    if b {
        seq!['t', 'r', 'u', 'e']
    } else {
        seq!['f', 'a', 'l', 's', 'e']
    }
}

/// Appends `true` or `false` to `s`.
pub fn push_bool(s: &mut String, b: bool)
    ensures
        final(s)@ == old(s)@ + bool_text(b),
{
    if b {
        push_char(s, 't');
        push_char(s, 'r');
        push_char(s, 'u');
        push_char(s, 'e');
        assert(s@ =~= old(s)@ + bool_text(b));
    } else {
        push_char(s, 'f');
        push_char(s, 'a');
        push_char(s, 'l');
        push_char(s, 's');
        push_char(s, 'e');
        assert(s@ =~= old(s)@ + bool_text(b));
    }
}

/// The lowercase hexadecimal digit for `d < 16`.
pub open spec fn hex_char(d: nat) -> char {
    if d < 10 {
        (48 + d) as char
    } else {
        (87 + d) as char
    }
}

/// The lowest `count` hexadecimal digits of `n`, most significant first.
pub open spec fn hex_digits(n: nat, count: nat) -> Seq<char>
    decreases count,
{
    if count == 0 {
        seq![]
    } else {
        hex_digits(n / 16, (count - 1) as nat).push(hex_char(n % 16))
    }
}

fn hex_digit(d: u64) -> (c: char)
    requires
        d < 16,
    ensures
        c == hex_char(d as nat),
{
    if d < 10 {
        let b: u8 = 48 + d as u8;
        b as char
    } else {
        let b: u8 = 87 + d as u8;
        b as char
    }
}

/// Appends the lowest `count` hexadecimal digits of `n` to `s`.
pub fn push_hex_digits(s: &mut String, n: u64, count: u32)
    ensures
        final(s)@ == old(s)@ + hex_digits(n as nat, count as nat),
    decreases count,
{
    if count > 0 {
        push_hex_digits(s, n / 16, count - 1);
        push_char(s, hex_digit(n % 16));
    }
}

/// The state of splitting `s` into lines after reading all of it: the lines
/// that a newline has closed, and the text read since the last newline.
pub open spec fn line_scan(s: Seq<char>) -> (Seq<Seq<char>>, Seq<char>)
    decreases s.len(),
{
    if s.len() == 0 {
        (seq![], seq![])
    } else {
        let (done, current) = line_scan(s.drop_last());
        if s.last() == '\n' {
            (done.push(strip_cr(current)), seq![])
        } else {
            (done, current.push(s.last()))
        }
    }
}

/// A line without the `\r` of a `\r\n` ending.
pub open spec fn strip_cr(line: Seq<char>) -> Seq<char> {
    if line.len() > 0 && line.last() == '\r' {
        line.drop_last()
    } else {
        line
    }
}

/// The lines of `s`, as `str::lines` yields them: split at `\n` or `\r\n`,
/// with the ending removed and no empty last line after a final newline.
pub open spec fn lines(s: Seq<char>) -> Seq<Seq<char>> {
    let (done, current) = line_scan(s);
    if current.len() == 0 {
        done
    } else {
        done.push(current)
    }
}

/// The lines of `s`, each as a range of positions into `chars`.
pub fn line_ranges(chars: &Vec<char>) -> (out: Vec<(usize, usize)>)
    ensures
        out@.len() == lines(chars@).len(),
        forall|k: int|
            0 <= k < out@.len() ==> {
                let (a, b) = #[trigger] out@[k];
                &&& a <= b <= chars@.len()
                &&& chars@.subrange(a as int, b as int) == lines(chars@)[k]
            },
{
    let mut out: Vec<(usize, usize)> = Vec::new();
    let mut start: usize = 0;
    let mut i: usize = 0;
    while i < chars.len()
        invariant
            start <= i <= chars.len(),
            line_scan(chars@.take(i as int)).0.len() == out@.len(),
            line_scan(chars@.take(i as int)).1 == chars@.subrange(start as int, i as int),
            forall|k: int|
                0 <= k < out@.len() ==> {
                    let (a, b) = #[trigger] out@[k];
                    &&& a <= b <= chars@.len()
                    &&& chars@.subrange(a as int, b as int) == line_scan(
                        chars@.take(i as int),
                    ).0[k]
                },
        decreases chars.len() - i,
    {
        let ghost prefix = chars@.take(i as int);
        assert(chars@.take(i + 1).drop_last() =~= prefix);
        assert(chars@.take(i + 1).last() == chars@[i as int]);
        if chars[i] == '\n' {
            let mut end = i;
            if end > start && chars[end - 1] == '\r' {
                end = end - 1;
            }
            proof {
                let cur = chars@.subrange(start as int, i as int);
                if i > start && chars@[i - 1] == '\r' {
                    assert(cur.last() == '\r');
                    assert(cur.drop_last() =~= chars@.subrange(start as int, end as int));
                } else {
                    assert(strip_cr(cur) == cur);
                }
            }
            out.push((start, end));
            start = i + 1;
        } else {
            assert(chars@.subrange(start as int, i + 1) =~= chars@.subrange(
                start as int,
                i as int,
            ).push(chars@[i as int]));
        }
        i = i + 1;
    }
    assert(chars@.take(chars.len() as int) =~= chars@);
    if start < chars.len() {
        out.push((start, chars.len()));
    }
    out
}

} // verus!

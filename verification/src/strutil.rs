//! Verified string-building and string-parsing primitives.
//!
//! Every route the compiler emits is assembled from these helpers, so their
//! contracts pin the exact character sequences that appear on the wire.

use vstd::prelude::*;
use vstd::string::*;

verus! {

/// Relies on `String::push`: appends the given character to the end of the
/// string, leaving the earlier characters unchanged.
#[verifier::external_body]
pub(crate) fn push_char(s: &mut String, c: char)
    ensures
        final(s)@ == old(s)@ + seq![c],
{
    s.push(c);
}

/// The decimal digit character for a value below ten.
pub open spec fn digit_char(d: int) -> char {
    if d == 0 {
        '0'
    } else if d == 1 {
        '1'
    } else if d == 2 {
        '2'
    } else if d == 3 {
        '3'
    } else if d == 4 {
        '4'
    } else if d == 5 {
        '5'
    } else if d == 6 {
        '6'
    } else if d == 7 {
        '7'
    } else if d == 8 {
        '8'
    } else {
        '9'
    }
}

/// The usual decimal rendering of a non-negative integer: most significant
/// digit first, no leading zeros (except for the value zero itself).
pub open spec fn dec_str(n: int) -> Seq<char>
    decreases n,
{
    if n < 10 {
        seq![digit_char(n)]
    } else {
        dec_str(n / 10) + seq![digit_char(n % 10)]
    }
}

/// Decimal rendering of a possibly negative integer: a leading `-` before
/// the magnitude.
pub open spec fn dec_str_signed(n: int) -> Seq<char> {
    if n < 0 {
        seq!['-'] + dec_str(-n)
    } else {
        dec_str(n)
    }
}

fn push_digit(s: &mut String, d: u64)
    requires
        d < 10,
    ensures
        final(s)@ == old(s)@ + seq![digit_char(d as int)],
{
    let c: char = match d {
        0 => '0',
        1 => '1',
        2 => '2',
        3 => '3',
        4 => '4',
        5 => '5',
        6 => '6',
        7 => '7',
        8 => '8',
        _ => '9',
    };
    push_char(s, c);
}

/// Appends the decimal rendering of `n` to `s`.
pub fn push_u64(s: &mut String, n: u64)
    ensures
        final(s)@ == old(s)@ + dec_str(n as int),
    decreases n,
{
    if n < 10 {
        push_digit(s, n);
    } else {
        push_u64(s, n / 10);
        push_digit(s, n % 10);
        proof {
            assert(old(s)@ + dec_str(n as int / 10) + seq![digit_char(n as int % 10)] == old(
                s,
            )@ + (dec_str(n as int / 10) + seq![digit_char(n as int % 10)]));
        }
    }
}

/// The decimal rendering of `n` as a fresh string.
pub fn u64_string(n: u64) -> (r: String)
    ensures
        r@ == dec_str(n as int),
{
    let mut s = String::new();
    push_u64(&mut s, n);
    s
}

/// The decimal rendering of a `usize` as a fresh string.
pub fn usize_string(n: usize) -> (r: String)
    ensures
        r@ == dec_str(n as int),
{
    u64_string(n as u64)
}

/// Appends the signed decimal rendering of `n` to `s`.
pub fn push_i64(s: &mut String, n: i64)
    requires
        n > i64::MIN,
    ensures
        final(s)@ == old(s)@ + dec_str_signed(n as int),
{
    if n < 0 {
        push_char(s, '-');
        let m: u64 = (-n) as u64;
        push_u64(s, m);
        proof {
            assert(old(s)@ + seq!['-'] + dec_str(m as int) == old(s)@ + (seq!['-'] + dec_str(
                m as int,
            )));
        }
    } else {
        push_u64(s, n as u64);
    }
}

/// The wire rendering of a boolean.
pub open spec fn bool_str(b: bool) -> Seq<char> {
    if b {
        "true"@
    } else {
        "false"@
    }
}

/// Appends `true` or `false` to `s`.
pub fn push_bool(s: &mut String, b: bool)
    ensures
        final(s)@ == old(s)@ + bool_str(b),
{
    if b {
        s.append("true");
    } else {
        s.append("false");
    }
}


/// The parts joined by `sep`: no separator before the first part, one
/// between each adjacent pair.
pub open spec fn join_sep(parts: Seq<Seq<char>>, sep: Seq<char>) -> Seq<char>
    decreases parts.len(),
{
    if parts.len() == 0 {
        Seq::empty()
    } else if parts.len() == 1 {
        parts[0]
    } else {
        parts[0] + sep + join_sep(parts.drop_first(), sep)
    }
}

/// Appending one more part to a join appends a separator and the part,
/// unless the join was empty.
pub proof fn lemma_join_push(parts: Seq<Seq<char>>, sep: Seq<char>, x: Seq<char>)
    ensures
        join_sep(parts.push(x), sep) == if parts.len() == 0 {
            x
        } else {
            join_sep(parts, sep) + sep + x
        },
    decreases parts.len(),
{
    if parts.len() == 0 {
        assert(parts.push(x)[0] == x);
        assert(join_sep(parts.push(x), sep) == x);
    } else if parts.len() == 1 {
        assert(parts.push(x).drop_first() =~= seq![x]);
        assert(join_sep(seq![x], sep) == x);
        assert(parts.push(x)[0] == parts[0]);
        assert(join_sep(parts.push(x), sep) == parts[0] + sep + x);
    } else {
        lemma_join_push(parts.drop_first(), sep, x);
        assert(parts.push(x).drop_first() =~= parts.drop_first().push(x));
        assert(join_sep(parts, sep) + sep + x == parts[0] + sep + (join_sep(
            parts.drop_first(),
            sep,
        ) + sep + x));
    }
}

/// Joins the strings with the separator, mirroring `join_sep`.
pub fn join_strings(parts: &Vec<String>, sep: &str) -> (r: String)
    ensures
        r@ == join_sep(parts@.map_values(|p: String| p@), sep@),
{
    let ghost gparts = parts@.map_values(|p: String| p@);
    let mut r = String::new();
    let mut i: usize = 0;
    while i < parts.len()
        invariant
            0 <= i <= parts.len(),
            gparts == parts@.map_values(|p: String| p@),
            gparts.len() == parts.len(),
            r@ == join_sep(gparts.take(i as int), sep@),
        decreases parts.len() - i,
    {
        if i > 0 {
            r.append(sep);
        }
        r.append(parts[i].as_str());
        proof {
            assert(gparts.take(i + 1) =~= gparts.take(i as int).push(gparts[i as int]));
            lemma_join_push(gparts.take(i as int), sep@, gparts[i as int]);
        }
        i = i + 1;
    }
    proof {
        assert(gparts.take(parts.len() as int) =~= gparts);
    }
    r
}

/// Pushing a string onto a vector's view appends its characters to the
/// mapped view.
pub proof fn lemma_map_values_push(v: Seq<String>, x: String)
    ensures
        (v.push(x)).map_values(|p: String| p@) == v.map_values(|p: String| p@).push(x@),
{
    assert((v.push(x)).map_values(|p: String| p@) =~= v.map_values(|p: String| p@).push(x@));
}

/// Whether the strings are equal, character for character.
pub fn str_eq(a: &str, b: &str) -> (r: bool)
    ensures
        r == (a@ == b@),
{
    let la = a.unicode_len();
    let lb = b.unicode_len();
    if la != lb {
        return false;
    }
    let mut i: usize = 0;
    while i < la
        invariant
            0 <= i <= la,
            la == a@.len(),
            la == b@.len(),
            forall|j: int| 0 <= j < i ==> a@[j] == b@[j],
        decreases la - i,
    {
        if a.get_char(i) != b.get_char(i) {
            return false;
        }
        i = i + 1;
    }
    proof {
        assert(a@ =~= b@);
    }
    true
}

/// Whether the strings are equal.
pub fn string_eq(a: &String, b: &str) -> (r: bool)
    ensures
        r == (a@ == b@),
{
    str_eq(a.as_str(), b)
}

/// The Unicode `White_Space` property, written out as the closed list of
/// code points it covers.
pub open spec fn is_space_char(c: char) -> bool {
    let u = c as u32;
    (9 <= u && u <= 13) || u == 32 || u == 0x85 || u == 0xA0 || u == 0x1680 || (0x2000 <= u && u
        <= 0x200A) || u == 0x2028 || u == 0x2029 || u == 0x202F || u == 0x205F || u == 0x3000
}

/// Whether `c` is Unicode whitespace.
pub fn is_space(c: char) -> (r: bool)
    ensures
        r == is_space_char(c),
{
    let u = c as u32;
    (9 <= u && u <= 13) || u == 32 || u == 0x85 || u == 0xA0 || u == 0x1680 || (0x2000 <= u && u
        <= 0x200A) || u == 0x2028 || u == 0x2029 || u == 0x202F || u == 0x205F || u == 0x3000
}

/// One step of whitespace collapsing: `acc` is the output so far, `sep`
/// records whether a separator is still owed before the next word
/// character.  Whitespace never reaches the output; a word character is
/// preceded by a single `+` when it follows whitespace inside the text.
pub open spec fn collapse_step(acc: Seq<char>, sep: bool, c: char) -> (Seq<char>, bool) {
    if is_space_char(c) {
        (acc, acc.len() > 0)
    } else if sep {
        (acc + seq!['+', c], false)
    } else {
        (acc + seq![c], false)
    }
}

/// The state of whitespace collapsing after the first `i` characters of `s`.
pub open spec fn collapse_fold(s: Seq<char>, i: int) -> (Seq<char>, bool)
    decreases i,
{
    if i <= 0 {
        (Seq::empty(), false)
    } else {
        let prev = collapse_fold(s, i - 1);
        collapse_step(prev.0, prev.1, s[i - 1])
    }
}

/// The text with every run of whitespace collapsed to a single `+` and
/// leading and trailing whitespace dropped.
pub open spec fn collapse_spaces(s: Seq<char>) -> Seq<char> {
    collapse_fold(s, s.len() as int).0
}

/// Appends `s` with whitespace runs collapsed to `+`, as `collapse_spaces`
/// describes.
pub fn push_collapsed(out: &mut String, s: &str)
    ensures
        final(out)@ == old(out)@ + collapse_spaces(s@),
{
    let len = s.unicode_len();
    let mut i: usize = 0;
    let mut sep: bool = false;
    let mut emitted: bool = false;
    while i < len
        invariant
            0 <= i <= len,
            len == s@.len(),
            out@ == old(out)@ + collapse_fold(s@, i as int).0,
            sep == collapse_fold(s@, i as int).1,
            emitted == (collapse_fold(s@, i as int).0.len() > 0),
        decreases len - i,
    {
        let ghost acc = collapse_fold(s@, i as int).0;
        let c = s.get_char(i);
        if is_space(c) {
            sep = emitted;
        } else {
            if sep {
                push_char(out, '+');
                push_char(out, c);
                proof {
                    assert(old(out)@ + acc + seq!['+'] + seq![c] =~= old(out)@ + (acc + seq![
                        '+',
                        c,
                    ]));
                }
            } else {
                push_char(out, c);
                proof {
                    assert(old(out)@ + acc + seq![c] =~= old(out)@ + (acc + seq![c]));
                }
            }
            sep = false;
            emitted = true;
        }
        i = i + 1;
    }
}

/// The text with every space character (U+0020 only) replaced by `+`.
pub open spec fn plus_for_space(s: Seq<char>) -> Seq<char> {
    s.map_values(
        |c: char|
            if c == ' ' {
                '+'
            } else {
                c
            },
    )
}

/// Appends `s` with each space replaced by `+`, as `plus_for_space`
/// describes.
pub fn push_plus_for_space(out: &mut String, s: &str)
    ensures
        final(out)@ == old(out)@ + plus_for_space(s@),
{
    let len = s.unicode_len();
    let mut i: usize = 0;
    while i < len
        invariant
            0 <= i <= len,
            len == s@.len(),
            out@ == old(out)@ + plus_for_space(s@.take(i as int)),
        decreases len - i,
    {
        let c = s.get_char(i);
        let e: char = if c == ' ' {
            '+'
        } else {
            c
        };
        push_char(out, e);
        proof {
            assert(old(out)@ + plus_for_space(s@.take(i as int)) + seq![e] =~= old(out)@
                + plus_for_space(s@.take(i as int + 1)));
        }
        i = i + 1;
    }
    proof {
        assert(s@.take(len as int) =~= s@);
    }
}

/// `s` left-padded with `0` characters up to width `w`; a string already
/// that wide is unchanged.
pub open spec fn zero_pad(s: Seq<char>, w: int) -> Seq<char> {
    if s.len() >= w {
        s
    } else {
        Seq::new((w - s.len()) as nat, |i: int| '0') + s
    }
}

/// The length of a decimal rendering, for values up to four digits.
pub proof fn lemma_dec_str_len(n: int)
    requires
        n >= 0,
    ensures
        n < 10 ==> dec_str(n).len() == 1,
        10 <= n < 100 ==> dec_str(n).len() == 2,
        100 <= n < 1000 ==> dec_str(n).len() == 3,
        1000 <= n < 10000 ==> dec_str(n).len() == 4,
        n >= 1000 ==> dec_str(n).len() >= 4,
    decreases n,
{
    if n >= 10 {
        lemma_dec_str_len(n / 10);
    }
}

/// Appends `n` zero-padded to two digits.
pub fn push_pad2_u32(s: &mut String, n: u32)
    ensures
        final(s)@ == old(s)@ + zero_pad(dec_str(n as int), 2),
{
    proof {
        lemma_dec_str_len(n as int);
    }
    if n < 10 {
        push_char(s, '0');
        push_u64(s, n as u64);
        proof {
            assert(Seq::new(1nat, |i: int| '0') =~= seq!['0']);
            assert(old(s)@ + seq!['0'] + dec_str(n as int) =~= old(s)@ + zero_pad(
                dec_str(n as int),
                2,
            ));
        }
    } else {
        push_u64(s, n as u64);
    }
}

/// Appends `n` zero-padded to four digits.
pub fn push_pad4_u32(s: &mut String, n: u32)
    ensures
        final(s)@ == old(s)@ + zero_pad(dec_str(n as int), 4),
{
    proof {
        lemma_dec_str_len(n as int);
    }
    if n < 10 {
        s.append("000");
        push_u64(s, n as u64);
        proof {
            reveal_strlit("000");
            assert("000"@ =~= Seq::new(3nat, |i: int| '0'));
            assert(old(s)@ + "000"@ + dec_str(n as int) =~= old(s)@ + zero_pad(
                dec_str(n as int),
                4,
            ));
        }
    } else if n < 100 {
        s.append("00");
        push_u64(s, n as u64);
        proof {
            reveal_strlit("00");
            assert("00"@ =~= Seq::new(2nat, |i: int| '0'));
            assert(old(s)@ + "00"@ + dec_str(n as int) =~= old(s)@ + zero_pad(dec_str(n as int), 4));
        }
    } else if n < 1000 {
        push_char(s, '0');
        push_u64(s, n as u64);
        proof {
            assert(seq!['0'] =~= Seq::new(1nat, |i: int| '0'));
            assert(old(s)@ + seq!['0'] + dec_str(n as int) =~= old(s)@ + zero_pad(
                dec_str(n as int),
                4,
            ));
        }
    } else {
        push_u64(s, n as u64);
    }
}

/// Whether `c` is an ASCII decimal digit.
pub open spec fn is_digit_char(c: char) -> bool {
    48 <= c as u32 && c as u32 <= 57
}

/// The value of a decimal digit character.
pub open spec fn digit_val(c: char) -> int {
    c as u32 - 48
}

/// Whether every character of `s` is a decimal digit.
pub open spec fn all_digits(s: Seq<char>) -> bool {
    forall|i: int| 0 <= i < s.len() ==> is_digit_char(s[i])
}

/// The number a digit string denotes, most significant digit first.
pub open spec fn digits_val(s: Seq<char>) -> int
    decreases s.len(),
{
    if s.len() == 0 {
        0
    } else {
        digits_val(s.drop_last()) * 10 + digit_val(s.last())
    }
}

/// A digit string denotes a non-negative number, and every prefix denotes
/// no more than the whole.
pub proof fn lemma_digits_val_bounds(s: Seq<char>, i: int)
    requires
        all_digits(s),
        0 <= i <= s.len(),
    ensures
        digits_val(s) >= 0,
        digits_val(s.take(i)) <= digits_val(s),
    decreases s.len(),
{
    if s.len() == 0 {
        assert(s.take(i) =~= s);
    } else {
        lemma_digits_val_bounds(s.drop_last(), if i < s.len() {
            i
        } else {
            s.len() - 1
        });
        assert(digits_val(s.drop_last()) * 10 >= digits_val(s.drop_last())) by (nonlinear_arith)
            requires
                digits_val(s.drop_last()) >= 0,
        ;
        if i < s.len() {
            assert(s.take(i) =~= s.drop_last().take(i));
        } else {
            assert(s.take(i) =~= s);
        }
    }
}

/// The digits of `s` with an optional single leading `+` sign stripped:
/// the part a decimal parse must consume.
pub open spec fn strip_plus(s: Seq<char>) -> Seq<char> {
    if s.len() > 0 && s[0] == '+' {
        s.drop_first()
    } else {
        s
    }
}

/// What `usize` decimal parsing yields: the denoted number when the text is
/// an optional `+` sign followed by one or more digits and the value fits,
/// nothing otherwise.
pub open spec fn parse_usize_spec(s: Seq<char>) -> Option<int> {
    let ds = strip_plus(s);
    if ds.len() > 0 && all_digits(ds) && digits_val(ds) <= usize::MAX as int {
        Some(digits_val(ds))
    } else {
        None
    }
}

/// Parses a decimal `usize`, as `parse_usize_spec` describes.
pub fn parse_usize(s: &str) -> (r: Option<usize>)
    ensures
        r matches Some(n) ==> parse_usize_spec(s@) == Some(n as int),
        r is None ==> parse_usize_spec(s@) is None,
{
    let len = s.unicode_len();
    let start: usize = if len > 0 && s.get_char(0) == '+' {
        1
    } else {
        0
    };
    let ghost ds = strip_plus(s@);
    proof {
        assert(ds =~= s@.subrange(start as int, len as int));
    }
    if start >= len {
        return None;
    }
    let mut acc: usize = 0;
    let mut i: usize = start;
    while i < len
        invariant
            start <= i <= len,
            len == s@.len(),
            ds == strip_plus(s@),
            ds == s@.subrange(start as int, len as int),
            all_digits(ds.take(i - start)),
            acc as int == digits_val(ds.take(i - start)),
        decreases len - i,
    {
        let c = s.get_char(i);
        let u = c as u32;
        if !(48 <= u && u <= 57) {
            proof {
                assert(0 <= i - start < ds.len());
                assert(ds[i - start] == s@[i as int]);
                assert(!is_digit_char(ds[i - start]));
                assert(!all_digits(ds));
                assert(ds == strip_plus(s@));
                assert(!(ds.len() > 0 && all_digits(ds) && digits_val(ds) <= usize::MAX as int));
                assert(parse_usize_spec(s@) is None);
            }
            return None;
        }
        let d: usize = (u - 48) as usize;
        let ghost prefix = ds.take(i - start);
        proof {
            assert(ds.take(i - start + 1).drop_last() =~= prefix);
            assert(ds.take(i - start + 1).last() == s@[i as int]);
        }
        let step = match acc.checked_mul(10) {
            Some(m) => m.checked_add(d),
            None => None,
        };
        match step {
            Some(v) => {
                acc = v;
            },
            None => {
                proof {
                    assert(acc as int * 10 + d as int > usize::MAX as int);
                    assert(digits_val(ds.take(i - start + 1)) == acc as int * 10 + d as int);
                    if all_digits(ds) {
                        lemma_digits_val_bounds(ds, i - start + 1);
                        assert(digits_val(ds) > usize::MAX as int);
                    }
                    assert(parse_usize_spec(s@) is None);
                }
                return None;
            },
        }
        i = i + 1;
    }
    proof {
        assert(ds.take(len - start) =~= ds);
    }
    Some(acc)
}

/// What boolean parsing yields: exactly the texts `true` and `false` are
/// accepted.
pub open spec fn parse_bool_spec(s: Seq<char>) -> Option<bool> {
    if s == "true"@ {
        Some(true)
    } else if s == "false"@ {
        Some(false)
    } else {
        None
    }
}

/// Parses a boolean, as `parse_bool_spec` describes.
pub fn parse_bool(s: &str) -> (r: Option<bool>)
    ensures
        r == parse_bool_spec(s@),
{
    if str_eq(s, "true") {
        Some(true)
    } else if str_eq(s, "false") {
        Some(false)
    } else {
        None
    }
}


/// One step of splitting on a separator: finished parts so far, and the
/// part currently being read.
pub open spec fn split_fold(s: Seq<char>, sep: char, i: int) -> (Seq<Seq<char>>, Seq<char>)
    decreases i,
{
    if i <= 0 {
        (Seq::empty(), Seq::empty())
    } else {
        let prev = split_fold(s, sep, i - 1);
        let c = s[i - 1];
        if c == sep {
            (prev.0.push(prev.1), Seq::empty())
        } else {
            (prev.0, prev.1.push(c))
        }
    }
}

/// The text split on a separator character, keeping empty parts, so that
/// the result always holds one part more than the text holds separators.
pub open spec fn split_char(s: Seq<char>, sep: char) -> Seq<Seq<char>> {
    let st = split_fold(s, sep, s.len() as int);
    st.0.push(st.1)
}

/// Splits the text on a separator character, as `split_char` describes.
pub fn split_string(s: &str, sep: char) -> (r: Vec<String>)
    ensures
        r.deep_view() == split_char(s@, sep),
{
    let len = s.unicode_len();
    let mut out: Vec<String> = Vec::new();
    let mut cur = String::new();
    let mut i: usize = 0;
    while i < len
        invariant
            0 <= i <= len,
            len == s@.len(),
            out.deep_view() == split_fold(s@, sep, i as int).0,
            cur@ == split_fold(s@, sep, i as int).1,
        decreases len - i,
    {
        let c = s.get_char(i);
        if c == sep {
            let ghost before = out.deep_view();
            out.push(cur);
            proof {
                assert(out.deep_view() =~= before.push(split_fold(s@, sep, i as int).1));
            }
            cur = String::new();
        } else {
            push_char(&mut cur, c);
            proof {
                assert(split_fold(s@, sep, i as int).1 + seq![c] =~= split_fold(
                    s@,
                    sep,
                    i as int + 1,
                ).1);
            }
        }
        i = i + 1;
    }
    let ghost before = out.deep_view();
    out.push(cur);
    proof {
        assert(out.deep_view() =~= before.push(split_fold(s@, sep, len as int).1));
    }
    out
}

} // verus!

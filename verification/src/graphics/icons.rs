//! Icon fonts: the file that names the code point of each icon, one line per icon, the
//! name and the code point (digits in some radix) split by a delimiter.

use vstd::prelude::*;

use super::font::Error;
use super::keycode::{char_from_u32, is_char_value};

verus! {

broadcast use vstd::string::axiom_spec_iter;

/// The characters of a string.
pub fn str_chars(s: &str) -> (r: Vec<char>)
    ensures
        r@ == s@,
{
    let mut r: Vec<char> = Vec::new();
    for c in it: s.chars()
        invariant
            it.seq() == s@,
            r@ == it.seq().take(it.index() as int),
    {
        r.push(c);
        assert(r@ =~= it.seq().take(it.index() + 1));
    }
    assert(r@ =~= s@);
    r
}

/// The first index from `k` on where `s` holds `c`.
pub open spec fn index_of_from(s: Seq<char>, c: char, k: int) -> Option<int>
    decreases s.len() - k,
{
    if k < 0 || k >= s.len() {
        None
    } else if s[k] == c {
        Some(k)
    } else {
        index_of_from(s, c, k + 1)
    }
}

pub proof fn lemma_index_of_from(s: Seq<char>, c: char, k: int)
    requires
        0 <= k,
    ensures
        index_of_from(s, c, k) matches Some(j) ==> k <= j < s.len() && s[j] == c && forall|m: int|
            k <= m < j ==> s[m] != c,
        index_of_from(s, c, k) is None ==> forall|m: int| k <= m < s.len() ==> s[m] != c,
    decreases s.len() - k,
{
    if 0 <= k < s.len() && s[k] != c {
        lemma_index_of_from(s, c, k + 1);
    }
}

/// Where the line that starts at `i` ends: at its '\n', or at the end of the text.
pub open spec fn line_end(s: Seq<char>, i: int) -> int {
    match index_of_from(s, '\n', i) {
        Some(e) => e,
        None => s.len() as int,
    }
}

/// The line that starts at `i`, without its line ending ("\n", or "\r\n").
pub open spec fn line_at(s: Seq<char>, i: int) -> Seq<char> {
    let e = line_end(s, i);
    if e < s.len() && e > i && s[e - 1] == '\r' {
        s.subrange(i, e - 1)
    } else {
        s.subrange(i, e)
    }
}

/// The value of a digit in radices up to 36 ('0' to '9', then 'a' to 'z' or 'A' to 'Z');
/// 36 for a character that is no digit.
pub open spec fn digit_value(c: char) -> int {
    let v = c as int;
    if 48 <= v <= 57 {
        v - 48
    } else if 97 <= v <= 122 {
        v - 87
    } else if 65 <= v <= 90 {
        v - 55
    } else {
        36
    }
}

/// The number that the digits `s` write in `radix`.
pub open spec fn digits_value(s: Seq<char>, radix: int) -> int
    decreases s.len(),
{
    if s.len() == 0 {
        0
    } else {
        digits_value(s.drop_last(), radix) * radix + digit_value(s.last())
    }
}

/// Digits are read as `u32::from_str_radix` reads them: '0' to '9' are 0 to 9, 'a' to 'z'
/// are 10 to 35 and 'A' to 'Z' the same as their lower-case letters, so that "E88A" and
/// "e88a" are the same number; no other character is a digit in any radix up to 36.
pub proof fn law_digit_values(c: char)
    ensures
        '0' <= c <= '9' ==> digit_value(c) == c as int - '0' as int,
        'a' <= c <= 'z' ==> digit_value(c) == 10 + (c as int - 'a' as int),
        'A' <= c <= 'Z' ==> digit_value(c) == 10 + (c as int - 'A' as int),
        'A' <= c <= 'Z' ==> digit_value(c) == digit_value((c as int + 32) as char),
        !('0' <= c <= '9' || 'a' <= c <= 'z' || 'A' <= c <= 'Z') ==> digit_value(c) >= 36,
{
}

/// Every character of `s` is a digit of `radix`.
pub open spec fn all_digits(s: Seq<char>, radix: int) -> bool {
    forall|i: int| 0 <= i < s.len() ==> #[trigger] digit_value(s[i]) < radix
}

/// The `u32` that `s` writes in `radix`, as `u32::from_str_radix` reads it: an optional '+'
/// and at least one digit; `None` for anything else or a number past `u32::MAX`.
pub open spec fn parse_radix(s: Seq<char>, radix: u32) -> Option<u32> {
    let digits = if s.len() > 0 && s[0] == '+' {
        s.skip(1)
    } else {
        s
    };
    if digits.len() == 0 || !all_digits(digits, radix as int) || digits_value(digits, radix as int)
        > u32::MAX {
        None
    } else {
        Some(digits_value(digits, radix as int) as u32)
    }
}

/// A line of the file: the icon's name before the first delimiter, and its code point
/// after it.
pub open spec fn parse_icon_line(line: Seq<char>, delimiter: char, radix: u32) -> Result<
    (Seq<char>, u32),
    Error,
> {
    match index_of_from(line, delimiter, 0) {
        None => Err(Error::InvalidCodepointSplit),
        Some(j) => match parse_radix(line.skip(j + 1), radix) {
            None => Err(Error::InvalidCodepointParse),
            Some(v) => if is_char_value(v) {
                Ok((line.take(j), v))
            } else {
                Err(Error::InvalidCodepointValue)
            },
        },
    }
}

/// The characters of each name.
pub open spec fn str_views(names: Seq<&str>) -> Seq<Seq<char>> {
    names.map_values(|n: &str| n@)
}

/// The characters of each name.
pub open spec fn vec_views(names: Seq<Vec<char>>) -> Seq<Seq<char>> {
    names.map_values(|n: Vec<char>| n@)
}

/// The first index from `k` on of an icon called `name`.
pub open spec fn name_index_from(names: Seq<Seq<char>>, name: Seq<char>, k: int) -> Option<int>
    decreases names.len() - k,
{
    if k < 0 || k >= names.len() {
        None
    } else if names[k] == name {
        Some(k)
    } else {
        name_index_from(names, name, k + 1)
    }
}

/// What reading the lines from `i` on gives, where `remaining` icons are still to be found:
/// each line that names an icon gives the icon's index and its code point; reading stops
/// after the last icon to find, or at the first line that cannot be read, whose error it
/// gives.
pub open spec fn icon_matches_from(
    s: Seq<char>,
    i: int,
    delimiter: char,
    radix: u32,
    names: Seq<Seq<char>>,
    remaining: int,
) -> (Seq<(int, u32)>, Result<(), Error>)
    decreases s.len() + 1 - i,
{
    if i < 0 || i >= s.len() {
        (seq![], Ok(()))
    } else {
        let next = line_end(s, i) + 1;
        proof {
            lemma_index_of_from(s, '\n', i);
        }
        match parse_icon_line(line_at(s, i), delimiter, radix) {
            Err(e) => (seq![], Err(e)),
            Ok((name, cp)) => match name_index_from(names, name, 0) {
                None => icon_matches_from(s, next, delimiter, radix, names, remaining),
                Some(ind) => if remaining - 1 > 0 {
                    let r = icon_matches_from(s, next, delimiter, radix, names, remaining - 1);
                    (seq![(ind, cp)] + r.0, r.1)
                } else {
                    (seq![(ind, cp)], Ok(()))
                },
            },
        }
    }
}

/// The first index from `k` below `end` where `chars` holds `c`.
fn find_char(chars: &Vec<char>, c: char, k: usize, end: usize) -> (r: Option<usize>)
    requires
        k <= end <= chars@.len(),
    ensures
        r matches Some(j) ==> k <= j < end && chars@[j as int] == c && forall|m: int|
            k <= m < j ==> chars@[m] != c,
        r is None ==> forall|m: int| k <= m < end ==> chars@[m] != c,
{
    let mut j: usize = k;
    while j < end
        invariant
            k <= j <= end <= chars@.len(),
            forall|m: int| k <= m < j ==> chars@[m] != c,
        decreases end - j,
    {
        if chars[j] == c {
            return Some(j);
        }
        j += 1;
    }
    None
}

fn digit_of(c: char) -> (r: u32)
    ensures
        r == digit_value(c),
{
    let v: u32 = c as u32;
    if 48 <= v && v <= 57 {
        v - 48
    } else if 97 <= v && v <= 122 {
        v - 87
    } else if 65 <= v && v <= 90 {
        v - 55
    } else {
        36
    }
}

proof fn lemma_digits_value_prefix(s: Seq<char>, k: int, radix: int)
    requires
        0 <= k <= s.len(),
        radix >= 1,
        all_digits(s, radix),
    ensures
        0 <= digits_value(s.take(k), radix) <= digits_value(s, radix),
    decreases s.len(),
{
    if k == s.len() {
        assert(s.take(k) =~= s);
        lemma_digits_value_nonneg(s, radix);
    } else {
        let t = s.drop_last();
        assert(t.take(k) =~= s.take(k));
        assert forall|i: int| 0 <= i < t.len() implies #[trigger] digit_value(t[i]) < radix by {
            assert(t[i] == s[i]);
            assert(digit_value(s[i]) < radix);
        }
        lemma_digits_value_prefix(t, k, radix);
        lemma_digits_value_nonneg(t, radix);
        let a = digits_value(t, radix);
        assert(a * radix >= a) by (nonlinear_arith)
            requires
                a >= 0,
                radix >= 1,
        ;
    }
}

proof fn lemma_digits_value_nonneg(s: Seq<char>, radix: int)
    requires
        radix >= 1,
    ensures
        0 <= digits_value(s, radix),
    decreases s.len(),
{
    if s.len() > 0 {
        lemma_digits_value_nonneg(s.drop_last(), radix);
        let a = digits_value(s.drop_last(), radix);
        assert(a * radix >= 0) by (nonlinear_arith)
            requires
                a >= 0,
                radix >= 1,
        ;
    }
}

/// Reads the characters `start..end` as `u32::from_str_radix` does.
fn parse_radix_range(chars: &Vec<char>, start: usize, end: usize, radix: u32) -> (r: Option<u32>)
    requires
        start <= end <= chars@.len(),
        2 <= radix <= 36,
    ensures
        r == parse_radix(chars@.subrange(start as int, end as int), radix),
{
    let ghost s = chars@.subrange(start as int, end as int);
    let mut k: usize = start;
    if start < end && chars[start] == '+' {
        k = start + 1;
    }
    let ghost digits = chars@.subrange(k as int, end as int);
    assert(s == chars@.subrange(start as int, end as int));
    assert(digits =~= (if s.len() > 0 && s[0] == '+' {
        s.skip(1)
    } else {
        s
    }));
    assert(parse_radix(s, radix) == (if digits.len() == 0 || !all_digits(digits, radix as int)
        || digits_value(digits, radix as int) > u32::MAX {
        None
    } else {
        Some(digits_value(digits, radix as int) as u32)
    }));
    if k == end {
        return None;
    }
    let mut value: u64 = 0;
    let mut j: usize = k;
    while j < end
        invariant
            k <= j <= end <= chars@.len(),
            2 <= radix <= 36,
            s == chars@.subrange(start as int, end as int),
            parse_radix(s, radix) == (if digits.len() == 0 || !all_digits(digits, radix as int)
                || digits_value(digits, radix as int) > u32::MAX {
                None
            } else {
                Some(digits_value(digits, radix as int) as u32)
            }),
            digits == chars@.subrange(k as int, end as int),
            value <= u32::MAX,
            value == digits_value(digits.take(j - k), radix as int),
            all_digits(digits.take(j - k), radix as int),
        decreases end - j,
    {
        let d: u32 = digit_of(chars[j]);
        assert(digits[j - k] == chars@[j as int]);
        if d >= radix {
            assert(digit_value(digits[j - k]) >= radix);
            assert(!all_digits(digits, radix as int));
            return None;
        }
        proof {
            assert(digits.take(j - k + 1).drop_last() =~= digits.take(j - k));
            assert(value * radix <= 0xFFFF_FFFFu64 * 36) by (nonlinear_arith)
                requires
                    value <= u32::MAX,
                    radix <= 36,
            ;
            assert forall|i: int| 0 <= i < digits.take(j - k + 1).len() implies #[trigger] digit_value(
                digits.take(j - k + 1)[i],
            ) < radix by {
                if i < j - k {
                    assert(digits.take(j - k + 1)[i] == digits.take(j - k)[i]);
                }
            }
        }
        value = value * (radix as u64) + (d as u64);
        j += 1;
        if value > 0xFFFF_FFFF {
            proof {
                if all_digits(digits, radix as int) {
                    lemma_digits_value_prefix(digits, j - k, radix as int);
                }
            }
            return None;
        }
    }
    assert(digits.take(j - k) =~= digits);
    Some(value as u32)
}

/// The index of the first name that equals the characters `start..end`.
fn find_name(names: &Vec<Vec<char>>, chars: &Vec<char>, start: usize, end: usize) -> (r: Option<
    usize,
>)
    requires
        start <= end <= chars@.len(),
    ensures
        r matches Some(i) ==> name_index_from(
            vec_views(names@),
            chars@.subrange(start as int, end as int),
            0,
        ) == Some(i as int),
        r is None ==> name_index_from(
            vec_views(names@),
            chars@.subrange(start as int, end as int),
            0,
        ) is None,
{
    let ghost all = vec_views(names@);
    let ghost name = chars@.subrange(start as int, end as int);
    let mut k: usize = 0;
    while k < names.len()
        invariant
            k <= names@.len(),
            all == vec_views(names@),
            name == chars@.subrange(start as int, end as int),
            start <= end <= chars@.len(),
            name_index_from(all, name, 0) == name_index_from(all, name, k as int),
        decreases names@.len() - k,
    {
        let n: &Vec<char> = &names[k];
        let mut same: bool = n.len() == end - start;
        let mut m: usize = 0;
        if same {
            while m < n.len()
                invariant
                    n@.len() == end - start,
                    start <= end <= chars@.len(),
                    m <= n@.len(),
                    same ==> forall|q: int| 0 <= q < m ==> n@[q] == chars@[start + q],
                    !same ==> exists|q: int| 0 <= q < m && n@[q] != chars@[start + q],
                decreases n@.len() - m,
            {
                if n[m] != chars[start + m] {
                    same = false;
                }
                m += 1;
            }
        }
        proof {
            assert(all[k as int] == n@);
            if same {
                assert(n@ =~= name);
            } else if n@.len() == end - start {
                let q = choose|q: int| 0 <= q < m && n@[q] != chars@[start + q];
                assert(name[q] == chars@[start + q]);
            }
        }
        if same {
            return Some(k);
        }
        k += 1;
    }
    None
}

/// The first line of `s` holds `delimiter`, so that reading `s` reads a number.
pub open spec fn first_line_splits(s: Seq<char>, delimiter: char) -> bool {
    s.len() > 0 && index_of_from(line_at(s, 0), delimiter, 0) is Some
}

/// Whether the first line of `codepoints` holds `delimiter`: only then does reading the
/// file come to read a code point in its radix.
pub fn first_line_has_delimiter(codepoints: &str, delimiter: char) -> (r: bool)
    ensures
        r == first_line_splits(codepoints@, delimiter),
{
    let chars: Vec<char> = str_chars(codepoints);
    let len: usize = chars.len();
    if len == 0 {
        return false;
    }
    let e: usize = match find_char(&chars, '\n', 0, len) {
        Some(e) => e,
        None => len,
    };
    proof {
        lemma_index_of_from(chars@, '\n', 0);
    }
    let line_stop: usize = if e < len && e > 0 && chars[e - 1] == '\r' {
        e - 1
    } else {
        e
    };
    let ghost line = chars@.subrange(0, line_stop as int);
    assert(line == line_at(chars@, 0));
    let split: Option<usize> = find_char(&chars, delimiter, 0, line_stop);
    proof {
        lemma_index_of_from(line, delimiter, 0);
        match split {
            Some(j) => {
                assert(line[j as int] == delimiter);
            },
            None => {
                if index_of_from(line, delimiter, 0) is Some {
                    let q = index_of_from(line, delimiter, 0).unwrap();
                    assert(line[q] == chars@[q]);
                }
            },
        }
    }
    split.is_some()
}

/// The icons that the lines of `codepoints` name, each by its index into `icon_names`, with
/// its code point, in the order of the lines; reading stops once as many lines named an
/// icon as there are names, or at the first line that cannot be read (no delimiter, no
/// number, or a number that is no character), whose error comes with the icons read before.
/// A radix outside 2 to 36 is taken only where no number is read (`u32::from_str_radix`
/// panics on it).
#[verifier::rlimit(40)]
pub fn match_icon_code_points(
    codepoints: &str,
    delimiter: char,
    radix: u32,
    icon_names: &[&str],
) -> (r: (Vec<(usize, char)>, Result<(), Error>))
    requires
        2 <= radix <= 36 || !first_line_splits(codepoints@, delimiter),
    ensures
        ({
            let names = str_views(icon_names@);
            let m = icon_matches_from(codepoints@, 0, delimiter, radix, names, icon_names@.len() as int);
            &&& r.0@.len() == m.0.len()
            &&& forall|i: int|
                0 <= i < m.0.len() ==> (#[trigger] r.0@[i]).0 == m.0[i].0 && r.0@[i].1 as u32
                    == m.0[i].1
            &&& r.1 == m.1
        }),
{
    let chars: Vec<char> = str_chars(codepoints);
    let mut names: Vec<Vec<char>> = Vec::new();
    let mut n: usize = 0;
    while n < icon_names.len()
        invariant
            n <= icon_names@.len(),
            names@.len() == n,
            vec_views(names@) == str_views(icon_names@.take(n as int)),
        decreases icon_names@.len() - n,
    {
        let v: Vec<char> = str_chars(icon_names[n]);
        let ghost vv = v@;
        assert(vv == icon_names@[n as int]@);
        let ghost before = names@;
        names.push(v);
        n += 1;
        proof {
            let a = vec_views(names@);
            let b = str_views(icon_names@.take(n as int));
            assert forall|q: int| 0 <= q < a.len() implies a[q] == b[q] by {
                if q < n - 1 {
                    assert(vec_views(before)[q] == str_views(icon_names@.take(n - 1))[q]);
                    assert(names@[q] == before[q]);
                } else {
                    assert(names@[q]@ == vv);
                }
            }
            assert(a =~= b);
        }
    }
    assert(icon_names@.take(n as int) =~= icon_names@);
    let ghost all_names = str_views(icon_names@);
    let ghost total = icon_matches_from(codepoints@, 0, delimiter, radix, all_names, icon_names@.len() as int);
    let mut matches: Vec<(usize, char)> = Vec::new();
    let mut remaining: usize = icon_names.len();
    let mut i: usize = 0;
    let len: usize = chars.len();
    while i < len
        invariant
            len == chars@.len(),
            chars@ == codepoints@,
            2 <= radix <= 36 || (i == 0 && !first_line_splits(chars@, delimiter)),
            vec_views(names@) == all_names,
            i <= len + 1,
            remaining >= 1 || all_names.len() == 0,
            all_names == str_views(icon_names@),
            total == icon_matches_from(
                codepoints@,
                0,
                delimiter,
                radix,
                all_names,
                icon_names@.len() as int,
            ),
            ({
                let rest = icon_matches_from(chars@, i as int, delimiter, radix, all_names, remaining as int);
                &&& total.0.len() == matches@.len() + rest.0.len()
                &&& forall|q: int| 0 <= q < matches@.len() ==> (#[trigger] matches@[q]).0 == total.0[q].0 && matches@[q].1 as u32 == total.0[q].1
                &&& forall|q: int| 0 <= q < rest.0.len() ==> #[trigger] rest.0[q] == total.0[matches@.len() + q]
                &&& total.1 == rest.1
            }),
        decreases len + 1 - i,
    {
        let e: usize = match find_char(&chars, '\n', i, len) {
            Some(e) => e,
            None => len,
        };
        proof {
            lemma_index_of_from(chars@, '\n', i as int);
            assert(e == line_end(chars@, i as int));
        }
        let line_stop: usize = if e < len && e > i && chars[e - 1] == '\r' {
            e - 1
        } else {
            e
        };
        let ghost line = chars@.subrange(i as int, line_stop as int);
        assert(line == line_at(chars@, i as int));
        let split: Option<usize> = find_char(&chars, delimiter, i, line_stop);
        proof {
            lemma_index_of_from(line, delimiter, 0);
        }
        let j: usize = match split {
            Some(j) => j,
            None => {
                proof {
                    if index_of_from(line, delimiter, 0) is Some {
                        let q = index_of_from(line, delimiter, 0).unwrap();
                        assert(line[q] == chars@[i + q]);
                    }
                    assert(parse_icon_line(line, delimiter, radix) == Err::<(Seq<char>, u32), Error>(
                        Error::InvalidCodepointSplit,
                    ));
                    assert(icon_matches_from(chars@, i as int, delimiter, radix, all_names, remaining as int)
                        == (Seq::<(int, u32)>::empty(), Err::<(), Error>(Error::InvalidCodepointSplit)));
                }
                return (matches, Err(Error::InvalidCodepointSplit));
            },
        };
        proof {
            assert(line[j - i] == delimiter);
            assert forall|m: int| 0 <= m < j - i implies line[m] != delimiter by {
                assert(line[m] == chars@[i + m]);
            }
            assert(index_of_from(line, delimiter, 0) == Some(j - i));
            assert(line.skip(j - i + 1) =~= chars@.subrange(j + 1, line_stop as int));
            assert(line.take(j - i) =~= chars@.subrange(i as int, j as int));
        }
        let value: u32 = match parse_radix_range(&chars, j + 1, line_stop, radix) {
            Some(v) => v,
            None => {
                return (matches, Err(Error::InvalidCodepointParse));
            },
        };
        let code_point: char = match char_from_u32(value) {
            Some(c) => c,
            None => {
                return (matches, Err(Error::InvalidCodepointValue));
            },
        };
        let ghost name = chars@.subrange(i as int, j as int);
        assert(parse_icon_line(line, delimiter, radix) == Ok::<(Seq<char>, u32), Error>(
            (name, value),
        ));
        let ghost old_rest = icon_matches_from(chars@, i as int, delimiter, radix, all_names, remaining as int);
        let ghost old_matches = matches@;
        match find_name(&names, &chars, i, j) {
            Some(ind) => {
                let ghost new_rest = icon_matches_from(chars@, e + 1, delimiter, radix, all_names, remaining - 1);
                assert(old_rest == (
                    if remaining - 1 > 0 {
                        (seq![(ind as int, value)] + new_rest.0, new_rest.1)
                    } else {
                        (seq![(ind as int, value)], Ok(()))
                    }
                ));
                matches.push((ind, code_point));
                remaining -= 1;
                assert(matches@[old_matches.len() as int] == (ind, code_point));
                assert(total.0[old_matches.len() as int] == old_rest.0[0]);
                if remaining == 0 {
                    return (matches, Ok(()));
                }
                if e >= len {
                    assert(new_rest == (Seq::<(int, u32)>::empty(), Ok::<(), Error>(())));
                    return (matches, Ok(()));
                }
                i = e + 1;
                proof {
                    assert forall|q: int| 0 <= q < new_rest.0.len() implies #[trigger] new_rest.0[q]
                        == total.0[matches@.len() + q] by {
                        assert(old_rest.0[q + 1] == new_rest.0[q]);
                        assert(old_rest.0[q + 1] == total.0[old_matches.len() + (q + 1)]);
                    }
                    assert forall|q: int| 0 <= q < matches@.len() implies (#[trigger] matches@[q]).0
                        == total.0[q].0 && matches@[q].1 as u32 == total.0[q].1 by {
                        if q < old_matches.len() {
                            assert(matches@[q] == old_matches[q]);
                        }
                    }
                }
            },
            None => {
                let ghost new_rest = icon_matches_from(chars@, e + 1, delimiter, radix, all_names, remaining as int);
                assert(old_rest == new_rest);
                if e >= len {
                    assert(new_rest == (Seq::<(int, u32)>::empty(), Ok::<(), Error>(())));
                    return (matches, Ok(()));
                }
                i = e + 1;
            },
        }
    }
    (matches, Ok(()))
}

} // verus!

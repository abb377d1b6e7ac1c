//! Text helpers shared by the rest of the crate: relative paths written with
//! `/`, and integers written in decimal.

use vstd::prelude::*;
use vstd::string::*;

verus! {

/// The characters of `s`, in order.
pub fn chars_of(s: &str) -> (v: Vec<char>)
    ensures
        v@ == s@,
{
    let mut v: Vec<char> = Vec::new();
    for c in it: s.chars()
        invariant
            v@ == it.seq().take(it.index()),
            it.seq() == s@,
    {
        v.push(c);
        assert(it.seq().take(it.index() + 1) =~= it.seq().take(it.index()).push(c));
    }
    assert(v@ =~= s@);
    v
}

/// Whether two texts hold the same characters.
pub fn same(a: &str, b: &str) -> (r: bool)
    ensures
        r == (a@ == b@),
{
    let left = chars_of(a);
    let right = chars_of(b);
    if left.len() != right.len() {
        return false;
    }
    let mut i: usize = 0;
    while i < left.len()
        invariant
            i <= left.len(),
            left.len() == right.len(),
            left@ == a@,
            right@ == b@,
            forall|j: int| 0 <= j < i ==> left@[j] == right@[j],
        decreases left.len() - i,
    {
        if left[i] != right[i] {
            assert(a@[i as int] != b@[i as int]);
            return false;
        }
        i = i + 1;
    }
    assert(left@ =~= right@);
    true
}

/// Whether `a` comes before `b` where texts are ordered character by
/// character, a text before every longer text that starts with it: the order
/// in which text is sorted.
pub open spec fn spec_before(a: Seq<char>, b: Seq<char>) -> bool
    decreases a.len(),
{
    if b.len() == 0 {
        false
    } else if a.len() == 0 {
        true
    } else if (a[0] as u32) < (b[0] as u32) {
        true
    } else if (b[0] as u32) < (a[0] as u32) {
        false
    } else {
        spec_before(a.skip(1), b.skip(1))
    }
}

/// No two texts come before each other.
pub proof fn lemma_before_is_one_way(a: Seq<char>, b: Seq<char>)
    requires
        spec_before(a, b),
    ensures
        !spec_before(b, a),
    decreases a.len(),
{
    if a.len() > 0 && b.len() > 0 && (a[0] as u32) == (b[0] as u32) {
        lemma_before_is_one_way(a.skip(1), b.skip(1));
    }
}

/// Where `a` does not come after `b`, nor `b` after `c`, `a` does not come
/// after `c`.
pub proof fn lemma_not_after_chains(a: Seq<char>, b: Seq<char>, c: Seq<char>)
    requires
        !spec_before(b, a),
        !spec_before(c, b),
    ensures
        !spec_before(c, a),
    decreases a.len(),
{
    if a.len() > 0 && c.len() > 0 {
        if b.len() > 0 {
            if (a[0] as u32) == (b[0] as u32) && (b[0] as u32) == (c[0] as u32) {
                lemma_not_after_chains(a.skip(1), b.skip(1), c.skip(1));
            }
        }
    }
}

/// Whether `a` comes before `b`; see [`spec_before`].
pub fn before(a: &str, b: &str) -> (r: bool)
    ensures
        r == spec_before(a@, b@),
{
    let left = chars_of(a);
    let right = chars_of(b);
    let mut i: usize = 0;
    assert(a@.skip(0) =~= a@);
    assert(b@.skip(0) =~= b@);
    loop
        invariant
            i <= left.len(),
            i <= right.len(),
            left@ == a@,
            right@ == b@,
            spec_before(a@, b@) == spec_before(a@.skip(i as int), b@.skip(i as int)),
        decreases left.len() - i,
    {
        if i == right.len() {
            return false;
        }
        if i == left.len() {
            return true;
        }
        let x: u32 = left[i] as u32;
        let y: u32 = right[i] as u32;
        assert(a@.skip(i as int)[0] == left@[i as int]);
        assert(b@.skip(i as int)[0] == right@[i as int]);
        if x < y {
            return true;
        }
        if y < x {
            return false;
        }
        assert(a@.skip(i as int).skip(1) =~= a@.skip(i + 1));
        assert(b@.skip(i as int).skip(1) =~= b@.skip(i + 1));
        i = i + 1;
    }
}

/// `child` placed below `base`. An absolute `child` stands alone, and no
/// second separator is written after a `base` that is empty or already ends
/// in one.
pub open spec fn spec_join(base: Seq<char>, child: Seq<char>) -> Seq<char> {
    if child.len() > 0 && child[0] == '/' {
        child
    } else if base.len() == 0 || base.last() == '/' {
        base + child
    } else {
        base + seq!['/'] + child
    }
}

/// Joins two paths; see [`spec_join`].
pub fn join(base: &str, child: &str) -> (path: String)
    ensures
        path@ == spec_join(base@, child@),
{
    let base_len = base.unicode_len();
    if child.unicode_len() > 0 && child.get_char(0) == '/' {
        String::from_str(child)
    } else if base_len == 0 || base.get_char(base_len - 1) == '/' {
        String::from_str(base).concat(child)
    } else {
        proof {
            reveal_strlit("/");
        }
        let slashed = String::from_str(base).concat("/");
        assert(slashed@ =~= base@ + seq!['/']);
        slashed.concat(child)
    }
}

/// The character that writes the digit `d`.
pub open spec fn spec_digit(d: int) -> char {
    if d == 0 {
        '0'
    } else if d == 1 {
        '1'
    } else if d == 2 {
        '2'
    } else if d == 3 {
        '3'
    } else if d == 4 {
        '4'
    } else if d == 5 {
        '5'
    } else if d == 6 {
        '6'
    } else if d == 7 {
        '7'
    } else if d == 8 {
        '8'
    } else {
        '9'
    }
}

/// The decimal digits of `n`, most significant first, without leading zeros.
pub open spec fn spec_digits(n: nat) -> Seq<char>
    decreases n,
{
    if n < 10 {
        seq![spec_digit(n as int)]
    } else {
        spec_digits(n / 10).push(spec_digit((n % 10) as int))
    }
}

/// `n` in decimal, with a leading `-` when it is negative.
pub open spec fn spec_decimal(n: int) -> Seq<char> {
    if n < 0 {
        seq!['-'] + spec_digits((-n) as nat)
    } else {
        spec_digits(n as nat)
    }
}

fn digit_text(d: u64) -> (s: &'static str)
    requires
        d < 10,
    ensures
        s@ == seq![spec_digit(d as int)],
{
    proof {
        reveal_strlit("0");
        reveal_strlit("1");
        reveal_strlit("2");
        reveal_strlit("3");
        reveal_strlit("4");
        reveal_strlit("5");
        reveal_strlit("6");
        reveal_strlit("7");
        reveal_strlit("8");
        reveal_strlit("9");
    }
    let s = if d == 0 {
        "0"
    } else if d == 1 {
        "1"
    } else if d == 2 {
        "2"
    } else if d == 3 {
        "3"
    } else if d == 4 {
        "4"
    } else if d == 5 {
        "5"
    } else if d == 6 {
        "6"
    } else if d == 7 {
        "7"
    } else if d == 8 {
        "8"
    } else {
        "9"
    };
    assert(s@ =~= seq![spec_digit(d as int)]);
    s
}

fn push_digits(n: u64, out: &mut String)
    ensures
        final(out)@ == old(out)@ + spec_digits(n as nat),
    decreases n,
{
    if n >= 10 {
        push_digits(n / 10, out);
    }
    out.append(digit_text(n % 10));
    assert(out@ =~= old(out)@ + spec_digits(n as nat));
}

/// Writes an unsigned integer in decimal.
pub fn decimal_u64(n: u64) -> (s: String)
    ensures
        s@ == spec_decimal(n as int),
{
    let mut s = String::new();
    push_digits(n, &mut s);
    assert(s@ =~= spec_digits(n as nat));
    s
}

/// Writes a signed integer in decimal.
pub fn decimal_i64(n: i64) -> (s: String)
    ensures
        s@ == spec_decimal(n as int),
{
    if n >= 0 {
        decimal_u64(n as u64)
    } else {
        proof {
            reveal_strlit("-");
        }
        let magnitude: u64 = ((-(n + 1)) as u64) + 1;
        let mut s = String::from_str("-");
        push_digits(magnitude, &mut s);
        assert(s@ =~= seq!['-'] + spec_digits((-n) as nat));
        s
    }
}

/// The value of a decimal digit character, if `c` is one.
pub open spec fn spec_digit_value(c: char) -> Option<int> {
    if c == '0' {
        Some(0)
    } else if c == '1' {
        Some(1)
    } else if c == '2' {
        Some(2)
    } else if c == '3' {
        Some(3)
    } else if c == '4' {
        Some(4)
    } else if c == '5' {
        Some(5)
    } else if c == '6' {
        Some(6)
    } else if c == '7' {
        Some(7)
    } else if c == '8' {
        Some(8)
    } else if c == '9' {
        Some(9)
    } else {
        None
    }
}

/// The number that a non-empty run of decimal digits writes; `None` for the
/// empty text and for text that holds anything but digits.
pub open spec fn spec_number(s: Seq<char>) -> Option<nat>
    decreases s.len(),
{
    if s.len() == 0 {
        None
    } else {
        match spec_digit_value(s.last()) {
            None => None,
            Some(d) => if s.len() == 1 {
                Some(d as nat)
            } else {
                match spec_number(s.drop_last()) {
                    None => None,
                    Some(v) => Some((v * 10 + d) as nat),
                }
            },
        }
    }
}

/// The signed 64-bit integer that `s` writes: an optional `+` or `-`, then
/// digits, with the value in range.
pub open spec fn spec_parse_i64(s: Seq<char>) -> Option<i64> {
    if s.len() > 0 && s[0] == '-' {
        match spec_number(s.skip(1)) {
            Some(v) if v <= 0x8000_0000_0000_0000 => Some((-(v as int)) as i64),
            _ => None,
        }
    } else if s.len() > 0 && s[0] == '+' {
        match spec_number(s.skip(1)) {
            Some(v) if v <= 0x7fff_ffff_ffff_ffff => Some(v as i64),
            _ => None,
        }
    } else {
        match spec_number(s) {
            Some(v) if v <= 0x7fff_ffff_ffff_ffff => Some(v as i64),
            _ => None,
        }
    }
}

fn digit_value(c: char) -> (d: Option<u64>)
    ensures
        match d {
            Some(v) => v < 10 && spec_digit_value(c) == Some(v as int),
            None => spec_digit_value(c) is None,
        },
{
    if c == '0' {
        Some(0)
    } else if c == '1' {
        Some(1)
    } else if c == '2' {
        Some(2)
    } else if c == '3' {
        Some(3)
    } else if c == '4' {
        Some(4)
    } else if c == '5' {
        Some(5)
    } else if c == '6' {
        Some(6)
    } else if c == '7' {
        Some(7)
    } else if c == '8' {
        Some(8)
    } else if c == '9' {
        Some(9)
    } else {
        None
    }
}

/// A number is never smaller than the number its leading digits write, and
/// text with a leading part that is no number is no number.
proof fn lemma_number_prefix(s: Seq<char>, k: int)
    requires
        0 < k <= s.len(),
    ensures
        spec_number(s.take(k)) is None ==> spec_number(s) is None,
        spec_number(s) is Some ==> spec_number(s.take(k))->0 <= spec_number(s)->0,
    decreases s.len(),
{
    if k == s.len() {
        assert(s.take(k) =~= s);
    } else {
        assert(s.drop_last().take(k) =~= s.take(k));
        lemma_number_prefix(s.drop_last(), k);
    }
}

/// The magnitude written by the digits of `chars` from `start` on, when it is
/// at most `limit`.
fn parse_magnitude(chars: &Vec<char>, start: usize, limit: u64) -> (r: Option<u64>)
    requires
        start <= chars.len(),
        9 <= limit <= 0x8000_0000_0000_0000,
    ensures
        match r {
            Some(v) => v <= limit && spec_number(chars@.skip(start as int)) == Some(v as nat),
            None => match spec_number(chars@.skip(start as int)) {
                Some(v) => v > limit,
                None => true,
            },
        },
{
    let ghost body = chars@.skip(start as int);
    if start == chars.len() {
        return None;
    }
    let mut acc: u64 = 0;
    let mut i: usize = start;
    while i < chars.len()
        invariant
            start <= i <= chars.len(),
            body == chars@.skip(start as int),
            9 <= limit <= 0x8000_0000_0000_0000,
            acc <= limit,
            i > start ==> spec_number(body.take(i - start)) == Some(acc as nat),
            i == start ==> acc == 0,
        decreases chars.len() - i,
    {
        let ghost seen = body.take(i - start + 1);
        proof {
            assert(seen.last() == chars@[i as int]);
            assert(seen.drop_last() =~= body.take(i - start));
            lemma_number_prefix(body, i - start + 1);
        }
        match digit_value(chars[i]) {
            None => {
                return None;
            },
            Some(d) => {
                if acc > (limit - d) / 10 {
                    assert(acc * 10 + d > limit);
                    return None;
                }
                acc = acc * 10 + d;
            },
        }
        i = i + 1;
    }
    assert(body.take(i - start) =~= body);
    Some(acc)
}

/// Reads a signed 64-bit integer written in decimal; see [`spec_parse_i64`].
pub fn parse_i64(s: &str) -> (r: Option<i64>)
    ensures
        r == spec_parse_i64(s@),
{
    let chars = chars_of(s);
    if chars.len() > 0 && chars[0] == '-' {
        match parse_magnitude(&chars, 1, 0x8000_0000_0000_0000) {
            Some(v) => {
                if v == 0x8000_0000_0000_0000 {
                    Some(i64::MIN)
                } else {
                    Some(-(v as i64))
                }
            },
            None => None,
        }
    } else if chars.len() > 0 && chars[0] == '+' {
        match parse_magnitude(&chars, 1, 0x7fff_ffff_ffff_ffff) {
            Some(v) => Some(v as i64),
            None => None,
        }
    } else {
        assert(chars@.skip(0) =~= chars@);
        match parse_magnitude(&chars, 0, 0x7fff_ffff_ffff_ffff) {
            Some(v) => Some(v as i64),
            None => None,
        }
    }
}

proof fn lemma_digits_are_number(n: nat)
    ensures
        spec_number(spec_digits(n)) == Some(n),
        spec_digits(n).len() > 0,
        spec_digit_value(spec_digits(n)[0]) is Some,
    decreases n,
{
    if n >= 10 {
        lemma_digits_are_number(n / 10);
        let d = spec_digits(n);
        assert(d.drop_last() =~= spec_digits(n / 10));
        assert(d.last() == spec_digit((n % 10) as int));
        assert(d[0] == spec_digits(n / 10)[0]);
    }
}

/// What [`decimal_i64`] writes, [`parse_i64`] reads back.
pub proof fn lemma_decimal_round_trip(n: i64)
    ensures
        spec_parse_i64(spec_decimal(n as int)) == Some(n),
{
    if n < 0 {
        let m = (-(n as int)) as nat;
        lemma_digits_are_number(m);
        assert(spec_decimal(n as int).skip(1) =~= spec_digits(m));
        assert(spec_decimal(n as int)[0] == '-');
    } else {
        lemma_digits_are_number(n as nat);
    }
}

/// The position of the last `c` in `s`, or -1 when `s` holds none.
pub open spec fn spec_last_index(s: Seq<char>, c: char) -> int
    decreases s.len(),
{
    if s.len() == 0 {
        -1
    } else if s.last() == c {
        s.len() - 1
    } else {
        spec_last_index(s.drop_last(), c)
    }
}

/// The last component of a path: what follows its last `/`.
pub open spec fn spec_file_name(path: Seq<char>) -> Seq<char> {
    path.skip(spec_last_index(path, '/') + 1)
}

/// The extension of a path: what follows the last `.` of its last component,
/// unless that component has no `.` or only one that starts it.
pub open spec fn spec_extension(path: Seq<char>) -> Option<Seq<char>> {
    let name = spec_file_name(path);
    let dot = spec_last_index(name, '.');
    if dot <= 0 {
        None
    } else {
        Some(name.skip(dot + 1))
    }
}

/// The last `c` at or after `lo`, as a position counted from `lo`.
fn last_index(chars: &Vec<char>, lo: usize, c: char) -> (r: Option<usize>)
    requires
        lo <= chars.len(),
    ensures
        match r {
            Some(i) => i < chars.len() - lo && spec_last_index(chars@.skip(lo as int), c) == i,
            None => spec_last_index(chars@.skip(lo as int), c) == -1,
        },
{
    let ghost body = chars@.skip(lo as int);
    let mut i: usize = chars.len();
    assert(body.take(i - lo) =~= body);
    while i > lo
        invariant
            lo <= i <= chars.len(),
            body == chars@.skip(lo as int),
            spec_last_index(body, c) == spec_last_index(body.take(i - lo), c),
        decreases i,
    {
        let ghost seen = body.take(i - lo);
        assert(seen.last() == chars@[i - 1]);
        if chars[i - 1] == c {
            return Some(i - 1 - lo);
        }
        assert(seen.drop_last() =~= body.take(i - 1 - lo));
        i = i - 1;
    }
    None
}

/// The extension of `path`; see [`spec_extension`].
pub fn extension(path: &str) -> (r: Option<String>)
    ensures
        match r {
            Some(e) => spec_extension(path@) == Some(e@),
            None => spec_extension(path@) is None,
        },
{
    let chars = chars_of(path);
    assert(chars@.skip(0) =~= chars@);
    let start: usize = match last_index(&chars, 0, '/') {
        Some(i) => i + 1,
        None => 0,
    };
    match last_index(&chars, start, '.') {
        None => None,
        Some(dot) => {
            if dot == 0 {
                None
            } else {
                let from: usize = start + dot + 1;
                let tail = path.substring_char(from, chars.len());
                assert(tail@ =~= spec_file_name(path@).skip(dot + 1));
                Some(String::from_str(tail))
            }
        },
    }
}

} // verus!

//! Operations on text, specified over sequences of characters.

use vstd::prelude::*;

verus! {

/// `String::push` appends one character and keeps what was there.
pub assume_specification[ String::push ](s: &mut String, c: char)
    ensures
        final(s)@ == old(s)@.push(c),
;

/// The characters with Unicode's `White_Space` property.
pub open spec fn is_space(c: char) -> bool {
    let n = c as u32;
    ||| 0x9 <= n <= 0xD
    ||| n == 0x20
    ||| n == 0x85
    ||| n == 0xA0
    ||| n == 0x1680
    ||| 0x2000 <= n <= 0x200A
    ||| n == 0x2028
    ||| n == 0x2029
    ||| n == 0x202F
    ||| n == 0x205F
    ||| n == 0x3000
}

/// Tells whether a character is white space.
pub fn is_whitespace(c: char) -> (b: bool)
    ensures
        b == is_space(c),
{
    let n: u32 = c as u32;
    (0x9 <= n && n <= 0xD) || n == 0x20 || n == 0x85 || n == 0xA0 || n == 0x1680 || (0x2000 <= n
        && n <= 0x200A) || n == 0x2028 || n == 0x2029 || n == 0x202F || n == 0x205F || n == 0x3000
}

/// The text without its leading white space.
pub open spec fn trimmed_start(s: Seq<char>) -> Seq<char>
    decreases s.len(),
{
    if s.len() > 0 && is_space(s[0]) {
        trimmed_start(s.drop_first())
    } else {
        s
    }
}

/// The text without its trailing white space.
pub open spec fn trimmed_end(s: Seq<char>) -> Seq<char>
    decreases s.len(),
{
    if s.len() > 0 && is_space(s.last()) {
        trimmed_end(s.drop_last())
    } else {
        s
    }
}

/// The text without white space at either end.
pub open spec fn trimmed(s: Seq<char>) -> Seq<char> {
    trimmed_end(trimmed_start(s))
}

/// The first index at or after `from` that holds `c`; the length where none does.
pub open spec fn index_from(s: Seq<char>, c: char, from: int) -> int
    decreases s.len() - from,
{
    if from < 0 || from >= s.len() {
        s.len() as int
    } else if s[from] == c {
        from
    } else {
        index_from(s, c, from + 1)
    }
}

/// The two sides of the first occurrence of `c`, which belongs to neither.
pub open spec fn split_first(s: Seq<char>, c: char) -> Option<(Seq<char>, Seq<char>)> {
    let i = index_from(s, c, 0);
    if i < s.len() {
        Some((s.subrange(0, i), s.subrange(i + 1, s.len() as int)))
    } else {
        None
    }
}

/// `part` stands in `s` at index `i`.
pub open spec fn occurs_at(s: Seq<char>, part: Seq<char>, i: int) -> bool {
    &&& 0 <= i
    &&& i + part.len() <= s.len()
    &&& s.subrange(i, i + part.len()) == part
}

/// `part` stands somewhere in `s`.
pub open spec fn has_part(s: Seq<char>, part: Seq<char>) -> bool {
    exists|i: int| occurs_at(s, part, i)
}

/// The first index at or after `from` where `part` stands.
pub open spec fn part_from(s: Seq<char>, part: Seq<char>, from: int) -> Option<int>
    decreases s.len() - from + 1,
{
    if from < 0 || from > s.len() {
        None
    } else if occurs_at(s, part, from) {
        Some(from)
    } else {
        part_from(s, part, from + 1)
    }
}

/// `s` begins with `prefix`.
pub open spec fn begins_with(s: Seq<char>, prefix: Seq<char>) -> bool {
    occurs_at(s, prefix, 0)
}

/// The characters of a string, one by one.
pub fn chars_of(s: &str) -> (v: Vec<char>)
    ensures
        v@ == s@,
{
    let mut v: Vec<char> = Vec::new();
    for c in iter: s.chars()
        invariant
            iter.seq() == s@,
            v@ == s@.take(iter.index() as int),
    {
        v.push(c);
    }
    assert(s@.take(s@.len() as int) == s@);
    v
}

/// The string of the characters at indices `from` to `to`, the latter excluded.
pub fn slice_text(v: &Vec<char>, from: usize, to: usize) -> (r: String)
    requires
        from <= to <= v@.len(),
    ensures
        r@ == v@.subrange(from as int, to as int),
{
    let mut r = String::new();
    let mut i: usize = from;
    while i < to
        invariant
            from <= i <= to <= v@.len(),
            r@ == v@.subrange(from as int, i as int),
        decreases to - i,
    {
        r.push(v[i]);
        i += 1;
    }
    r
}

/// A fresh copy of a string slice.
pub fn owned(s: &str) -> (r: String)
    ensures
        r@ == s@,
{
    s.to_owned()
}

/// Two texts put one after the other.
pub fn concat(a: &str, b: &str) -> (r: String)
    ensures
        r@ == a@ + b@,
{
    let mut r = a.to_owned();
    r.append(b);
    r
}

/// Compares two texts character by character.
pub fn same_text(a: &str, b: &str) -> (r: bool)
    ensures
        r == (a@ == b@),
{
    a.to_owned() == b.to_owned()
}

/// Removes white space at both ends.
pub fn trim(s: &str) -> (r: String)
    ensures
        r@ == trimmed(s@),
{
    let v = chars_of(s);
    let n: usize = v.len();
    let mut i: usize = 0;
    assert(v@.subrange(0, n as int) == v@);
    while i < n && is_whitespace(v[i])
        invariant
            i <= n == v@.len(),
            trimmed_start(v@.subrange(i as int, n as int)) == trimmed_start(v@),
        decreases n - i,
    {
        assert(v@.subrange(i as int, n as int).drop_first() == v@.subrange(i + 1, n as int));
        i += 1;
    }
    assert(trimmed_start(v@) == v@.subrange(i as int, n as int));
    let mut j: usize = n;
    while j > i && is_whitespace(v[j - 1])
        invariant
            i <= j <= n == v@.len(),
            trimmed_end(v@.subrange(i as int, j as int)) == trimmed_end(
                v@.subrange(i as int, n as int),
            ),
        decreases j,
    {
        assert(v@.subrange(i as int, j as int).drop_last() == v@.subrange(i as int, j - 1));
        j -= 1;
    }
    slice_text(&v, i, j)
}

/// Removes white space at the end.
pub fn trim_end(s: &str) -> (r: String)
    ensures
        r@ == trimmed_end(s@),
{
    let v = chars_of(s);
    let mut j: usize = v.len();
    assert(v@.subrange(0, j as int) == v@);
    while j > 0 && is_whitespace(v[j - 1])
        invariant
            j <= v@.len(),
            trimmed_end(v@.subrange(0, j as int)) == trimmed_end(v@),
        decreases j,
    {
        assert(v@.subrange(0, j as int).drop_last() == v@.subrange(0, j - 1));
        j -= 1;
    }
    slice_text(&v, 0, j)
}

/// Splits at the first occurrence of `c`.
pub fn split_once(s: &str, c: char) -> (r: Option<(String, String)>)
    ensures
        match (r, split_first(s@, c)) {
            (Some((a, b)), Some((x, y))) => a@ == x && b@ == y,
            (None, None) => true,
            _ => false,
        },
{
    let v = chars_of(s);
    let n: usize = v.len();
    let i: usize = find_char(&v, c, 0);
    if i < n {
        Some((slice_text(&v, 0, i), slice_text(&v, i + 1, n)))
    } else {
        None
    }
}

/// Finds the first index at or after `from` that holds `c`; the length where none does.
pub fn find_char(v: &Vec<char>, c: char, from: usize) -> (r: usize)
    requires
        from <= v@.len(),
    ensures
        r == index_from(v@, c, from as int),
        from <= r <= v@.len(),
{
    let n: usize = v.len();
    let mut i: usize = from;
    while i < n && v[i] != c
        invariant
            from <= i <= n == v@.len(),
            index_from(v@, c, i as int) == index_from(v@, c, from as int),
        decreases n - i,
    {
        i += 1;
    }
    i
}

/// Tells whether `part` stands in `v` at index `at`.
pub fn stands_at(v: &Vec<char>, part: &Vec<char>, at: usize) -> (r: bool)
    ensures
        r == occurs_at(v@, part@, at as int),
{
    let m: usize = part.len();
    if at > v.len() || m > v.len() - at {
        return false;
    }
    let mut k: usize = 0;
    assert(v@.len() == v.len());
    while k < m
        invariant
            k <= m == part@.len(),
            at + m <= v@.len() <= usize::MAX,
            forall|j: int| 0 <= j < k ==> v@[at + j] == part@[j],
        decreases m - k,
    {
        if v[at + k] != part[k] {
            assert(v@.subrange(at as int, at + m)[k as int] != part@[k as int]);
            return false;
        }
        k += 1;
    }
    assert(v@.subrange(at as int, at + m) == part@);
    true
}

/// Finds the first index at or after `from` where `part` stands.
pub fn find_part(v: &Vec<char>, part: &Vec<char>, from: usize) -> (r: Option<usize>)
    requires
        from <= v@.len(),
    ensures
        match (r, part_from(v@, part@, from as int)) {
            (Some(i), Some(j)) => i == j && from <= i && i + part@.len() <= v@.len(),
            (None, None) => true,
            _ => false,
        },
{
    let n: usize = v.len();
    let mut i: usize = from;
    while i < n
        invariant
            from <= i <= n == v@.len(),
            part_from(v@, part@, i as int) == part_from(v@, part@, from as int),
        decreases n - i,
    {
        if stands_at(v, part, i) {
            return Some(i);
        }
        i += 1;
    }
    if stands_at(v, part, n) {
        Some(n)
    } else {
        assert(part_from(v@, part@, n + 1) is None);
        None
    }
}

/// Tells whether `part` stands somewhere in `s`.
pub fn contains(s: &str, part: &str) -> (r: bool)
    ensures
        r == has_part(s@, part@),
{
    let v = chars_of(s);
    let p = chars_of(part);
    if p.len() > v.len() {
        return false;
    }
    let last: usize = v.len() - p.len();
    let mut i: usize = 0;
    while i <= last
        invariant
            i <= last + 1,
            last + p@.len() == v@.len(),
            last < usize::MAX || p@.len() == 0,
            v@ == s@,
            p@ == part@,
            forall|j: int| 0 <= j < i ==> !occurs_at(v@, p@, j),
        decreases last + 1 - i,
    {
        if stands_at(&v, &p, i) {
            return true;
        }
        if i == last {
            return false;
        }
        i += 1;
    }
    false
}

/// Tells whether `s` begins with `prefix`.
pub fn starts_with(s: &str, prefix: &str) -> (r: bool)
    ensures
        r == begins_with(s@, prefix@),
{
    stands_at(&chars_of(s), &chars_of(prefix), 0)
}

/// The number of characters of a text.
pub fn char_count(s: &str) -> (n: usize)
    ensures
        n == s@.len(),
{
    s.unicode_len()
}

/// The first `n` characters of a text, or all of them where there are fewer.
pub open spec fn first_chars(s: Seq<char>, n: int) -> Seq<char> {
    if s.len() <= n {
        s
    } else {
        s.take(n)
    }
}

/// Cuts a text after its first `n` characters.
pub fn take_chars(s: &str, n: usize) -> (r: String)
    ensures
        r@ == first_chars(s@, n as int),
{
    let v = chars_of(s);
    if v.len() <= n {
        s.to_owned()
    } else {
        slice_text(&v, 0, n)
    }
}

/// The parts one after the other with `sep` between neighbours.
pub open spec fn joined(parts: Seq<Seq<char>>, sep: Seq<char>) -> Seq<char>
    decreases parts.len(),
{
    if parts.len() == 0 {
        Seq::empty()
    } else if parts.len() == 1 {
        parts[0]
    } else {
        joined(parts.drop_last(), sep) + sep + parts.last()
    }
}

/// The texts of a list of strings.
pub open spec fn texts(v: Seq<String>) -> Seq<Seq<char>> {
    v.map_values(|s: String| s@)
}

/// Joins strings with a separator between neighbours.
pub fn join(parts: &Vec<String>, sep: &str) -> (r: String)
    ensures
        r@ == joined(texts(parts@), sep@),
{
    let mut r = String::new();
    let mut i: usize = 0;
    while i < parts.len()
        invariant
            i <= parts@.len(),
            r@ == joined(texts(parts@).take(i as int), sep@),
        decreases parts@.len() - i,
    {
        if i > 0 {
            r.append(sep);
        }
        r.append(parts[i].as_str());
        proof {
            let next = texts(parts@).take(i + 1);
            assert(next.drop_last() == texts(parts@).take(i as int));
        }
        i += 1;
    }
    assert(texts(parts@).take(i as int) == texts(parts@));
    r
}

/// A text in lower case, as Unicode has it.
pub uninterp spec fn lowercase(s: Seq<char>) -> Seq<char>;

/// `str::to_lowercase`. Claimed: the result is a function of the text.
#[verifier::external_body]
pub(crate) fn to_lowercase(s: &str) -> (r: String)
    ensures
        r@ == lowercase(s@),
{
    s.to_lowercase()
}

/// The digit that stands for a number below ten.
pub open spec fn digit_char(n: int) -> char {
    (0x30 + n) as char
}

/// The value of a decimal digit.
pub open spec fn digit_value(c: char) -> int {
    c as int - 0x30
}

/// The character is one of the ten decimal digits.
pub open spec fn is_digit(c: char) -> bool {
    0x30 <= c as int <= 0x39
}

/// A number in decimal notation.
pub open spec fn decimal(n: nat) -> Seq<char>
    decreases n,
{
    if n < 10 {
        seq![digit_char(n as int)]
    } else {
        decimal(n / 10).push(digit_char((n % 10) as int))
    }
}

/// An integer in decimal notation, with a sign where it is negative.
pub open spec fn integer_text(i: int) -> Seq<char> {
    if i < 0 {
        seq!['-'] + decimal((-i) as nat)
    } else {
        decimal(i as nat)
    }
}

/// Appends a number below ten as a digit.
fn push_digit(r: &mut String, d: u64)
    requires
        d < 10,
    ensures
        final(r)@ == old(r)@.push(digit_char(d as int)),
{
    let c: char = if d == 0 {
        '0'
    } else if d == 1 {
        '1'
    } else if d == 2 {
        '2'
    } else if d == 3 {
        '3'
    } else if d == 4 {
        '4'
    } else if d == 5 {
        '5'
    } else if d == 6 {
        '6'
    } else if d == 7 {
        '7'
    } else if d == 8 {
        '8'
    } else {
        '9'
    };
    r.push(c);
}

/// Writes a number in decimal notation.
pub fn u64_text(n: u64) -> (r: String)
    ensures
        r@ == decimal(n as nat),
    decreases n,
{
    if n < 10 {
        let mut r = String::new();
        push_digit(&mut r, n);
        r
    } else {
        let mut r = u64_text(n / 10);
        push_digit(&mut r, n % 10);
        r
    }
}

/// Writes an integer in decimal notation.
pub fn i64_text(i: i64) -> (r: String)
    ensures
        r@ == integer_text(i as int),
{
    if i >= 0 {
        u64_text(i as u64)
    } else {
        let m: u64 = if i == i64::MIN {
            0x8000_0000_0000_0000
        } else {
            (-i) as u64
        };
        let mut r = String::new();
        r.push('-');
        let digits = u64_text(m);
        r.append(digits.as_str());
        r
    }
}

/// The value of a run of decimal digits.
pub open spec fn digits_value(s: Seq<char>) -> nat
    decreases s.len(),
{
    if s.len() == 0 {
        0
    } else {
        (digits_value(s.drop_last()) * 10 + digit_value(s.last())) as nat
    }
}

/// A nonempty run of decimal digits.
pub open spec fn all_digits(s: Seq<char>) -> bool {
    s.len() > 0 && forall|i: int| 0 <= i < s.len() ==> is_digit(#[trigger] s[i])
}

/// What a text reads as, as an unsigned number up to `max`: decimal digits, with
/// a plus sign in front if one is wanted.
pub open spec fn read_unsigned(s: Seq<char>, max: nat) -> Option<nat> {
    let digits = if s.len() > 0 && s[0] == '+' {
        s.drop_first()
    } else {
        s
    };
    if all_digits(digits) && digits_value(digits) <= max {
        Some(digits_value(digits))
    } else {
        None
    }
}

/// What a text reads as, as a signed 64-bit number: decimal digits, with a sign
/// in front if one is wanted.
pub open spec fn read_i64(s: Seq<char>) -> Option<int> {
    if s.len() > 0 && s[0] == '-' {
        let digits = s.drop_first();
        if all_digits(digits) && -digits_value(digits) >= i64::MIN {
            Some(-digits_value(digits))
        } else {
            None
        }
    } else {
        match read_unsigned(s, i64::MAX as nat) {
            Some(n) => Some(n as int),
            None => None,
        }
    }
}

proof fn lemma_digits_value_prefix(s: Seq<char>, i: int)
    requires
        0 <= i <= s.len(),
        all_digits(s),
    ensures
        digits_value(s.take(i)) <= digits_value(s),
    decreases s.len() - i,
{
    if i < s.len() {
        assert(s.take(i + 1).drop_last() == s.take(i));
        assert(is_digit(s[i]));
        lemma_digits_value_prefix(s, i + 1);
    } else {
        assert(s.take(i) == s);
    }
}

proof fn lemma_written_digits(n: nat)
    ensures
        all_digits(decimal(n)),
        digits_value(decimal(n)) == n,
    decreases n,
{
    if n < 10 {
        assert(decimal(n).drop_last() == Seq::<char>::empty());
        assert(digits_value(Seq::<char>::empty()) == 0);
    } else {
        lemma_written_digits(n / 10);
        assert(decimal(n).drop_last() == decimal(n / 10));
        assert forall|i: int| 0 <= i < decimal(n).len() implies is_digit(
            #[trigger] decimal(n)[i],
        ) by {
            if i < decimal(n / 10).len() {
                assert(decimal(n)[i] == decimal(n / 10)[i]);
            }
        }
    }
}

/// Reading what was written for a number gives the number back, whatever white
/// space is cut off its ends.
pub proof fn reading_a_written_integer(i: i64)
    ensures
        trimmed(integer_text(i as int)) == integer_text(i as int),
        read_i64(integer_text(i as int)) == Some(i as int),
{
    let s = integer_text(i as int);
    let digits = decimal(
        (if i < 0 {
            -i
        } else {
            i as int
        }) as nat,
    );
    lemma_written_digits(
        (if i < 0 {
            -i
        } else {
            i as int
        }) as nat,
    );
    assert(is_digit(digits[0]));
    assert(is_digit(digits.last()));
    if i < 0 {
        assert(s.drop_first() == digits);
    }
    assert(s.last() == digits.last());
}

/// The code point of a character.
fn code_of(c: char) -> (n: u32)
    ensures
        n == c as int,
{
    c as u32
}

/// Reads the digits from `from` to the end as a number up to `max`.
fn read_digits(v: &Vec<char>, from: usize, max: u64) -> (r: Option<u64>)
    requires
        from <= v@.len(),
    ensures
        r is Some <==> {
            let d = v@.subrange(from as int, v@.len() as int);
            all_digits(d) && digits_value(d) <= max
        },
        r matches Some(n) ==> n == digits_value(v@.subrange(from as int, v@.len() as int)),
{
    let n: usize = v.len();
    let ghost d = v@.subrange(from as int, n as int);
    if from == n {
        return None;
    }
    let mut value: u64 = 0;
    let mut i: usize = from;
    while i < n
        invariant
            from <= i <= n == v@.len(),
            from < n,
            d == v@.subrange(from as int, n as int),
            forall|j: int| 0 <= j < i - from ==> is_digit(#[trigger] d[j]),
            value == digits_value(d.take(i - from)),
            value <= max,
        decreases n - i,
    {
        let code: u32 = code_of(v[i]);
        assert(d[i - from] == v@[i as int]);
        if code < 0x30 || code > 0x39 {
            assert(!is_digit(d[i - from]));
            return None;
        }
        let digit: u64 = (code - 0x30) as u64;
        let wide: u128 = value as u128 * 10 + digit as u128;
        proof {
            assert(d.take(i - from + 1).drop_last() == d.take(i - from));
            assert(wide == digits_value(d.take(i - from + 1)));
        }
        if wide > max as u128 {
            proof {
                if all_digits(d) {
                    lemma_digits_value_prefix(d, i - from + 1);
                }
            }
            return None;
        }
        value = wide as u64;
        i += 1;
    }
    assert(d.take(n - from) == d);
    Some(value)
}

/// Reads an unsigned number up to `max`.
pub fn parse_unsigned(s: &str, max: u64) -> (r: Option<u64>)
    ensures
        match (r, read_unsigned(s@, max as nat)) {
            (Some(a), Some(b)) => a == b,
            (None, None) => true,
            _ => false,
        },
{
    let v = chars_of(s);
    if v.len() > 0 && v[0] == '+' {
        assert(v@.subrange(1, v@.len() as int) == s@.drop_first());
        read_digits(&v, 1, max)
    } else {
        assert(v@.subrange(0, v@.len() as int) == s@);
        read_digits(&v, 0, max)
    }
}

/// Reads a signed 64-bit number.
pub fn parse_i64(s: &str) -> (r: Option<i64>)
    ensures
        match (r, read_i64(s@)) {
            (Some(a), Some(b)) => a == b,
            (None, None) => true,
            _ => false,
        },
{
    let v = chars_of(s);
    if v.len() > 0 && v[0] == '-' {
        assert(v@.subrange(1, v@.len() as int) == s@.drop_first());
        match read_digits(&v, 1, 0x8000_0000_0000_0000) {
            Some(n) => {
                if n == 0x8000_0000_0000_0000 {
                    Some(i64::MIN)
                } else {
                    Some(-(n as i64))
                }
            },
            None => None,
        }
    } else {
        match parse_unsigned(s, i64::MAX as u64) {
            Some(n) => Some(n as i64),
            None => None,
        }
    }
}

/// A part of the middle of a text is a part of the text.
pub proof fn longer_texts_keep_parts(
    before: Seq<char>,
    middle: Seq<char>,
    after: Seq<char>,
    part: Seq<char>,
)
    requires
        has_part(middle, part),
    ensures
        has_part(before + middle + after, part),
{
    let i = choose|i: int| occurs_at(middle, part, i);
    let whole = before + middle + after;
    assert(whole.subrange(before.len() + i, before.len() + i + part.len()) =~= middle.subrange(
        i,
        i + part.len(),
    ));
    assert(occurs_at(whole, part, before.len() + i));
}

/// Every part of a list stands in what the list is joined to.
pub proof fn joining_keeps_every_part(parts: Seq<Seq<char>>, sep: Seq<char>, k: int)
    requires
        0 <= k < parts.len(),
    ensures
        has_part(joined(parts, sep), parts[k]),
    decreases parts.len(),
{
    let whole = joined(parts, sep);
    let last = parts.last();
    if parts.len() == 1 {
        assert(whole.subrange(0, whole.len() as int) =~= whole);
        assert(occurs_at(whole, parts[k], 0));
    } else if k == parts.len() - 1 {
        let at = whole.len() - last.len();
        assert(whole.subrange(at, whole.len() as int) =~= last);
        assert(occurs_at(whole, last, at));
    } else {
        let rest = joined(parts.drop_last(), sep);
        joining_keeps_every_part(parts.drop_last(), sep, k);
        longer_texts_keep_parts(Seq::empty(), rest, sep + last, parts[k]);
        assert(Seq::<char>::empty() + rest + (sep + last) =~= whole);
    }
}

/// What trimming leaves is a stretch of the text with nothing but white space
/// around it, and it neither begins nor ends with white space.
pub proof fn trimming_cuts_white_space_alone(s: Seq<char>)
    ensures
        exists|i: int, j: int|
            0 <= i <= j <= s.len() && trimmed(s) == #[trigger] s.subrange(i, j) && (forall|k: int|
                0 <= k < i || j <= k < s.len() ==> is_space(#[trigger] s[k])),
        trimmed(s).len() > 0 ==> !is_space(trimmed(s)[0]) && !is_space(trimmed(s).last()),
{
    lemma_trimmed_start(s);
    let i = s.len() - trimmed_start(s).len();
    let t = trimmed_start(s);
    trimming_the_end_cuts_white_space_alone(t);
    let n = trimmed_end(t).len() as int;
    assert(trimmed(s) =~= s.subrange(i, i + n));
    assert forall|k: int| 0 <= k < i || i + n <= k < s.len() implies is_space(#[trigger] s[k]) by {
        if k >= i + n {
            assert(t[k - i] == s[k]);
        }
    }
    if n > 0 {
        assert(trimmed(s)[0] == t[0]);
    }
}

/// What trimming the end leaves is a beginning of the text with nothing but white
/// space after it, and it does not end with white space.
pub proof fn trimming_the_end_cuts_white_space_alone(s: Seq<char>)
    ensures
        trimmed_end(s).len() <= s.len(),
        trimmed_end(s) == s.take(trimmed_end(s).len() as int),
        forall|k: int| trimmed_end(s).len() <= k < s.len() ==> is_space(#[trigger] s[k]),
        trimmed_end(s).len() > 0 ==> !is_space(trimmed_end(s).last()),
    decreases s.len(),
{
    if s.len() > 0 && is_space(s.last()) {
        let rest = s.drop_last();
        trimming_the_end_cuts_white_space_alone(rest);
        assert(rest.take(trimmed_end(rest).len() as int) =~= s.take(trimmed_end(s).len() as int));
        assert forall|k: int| trimmed_end(s).len() <= k < s.len() implies is_space(
            #[trigger] s[k],
        ) by {
            if k < rest.len() {
                assert(rest[k] == s[k]);
            }
        }
    } else {
        assert(s.take(s.len() as int) =~= s);
    }
}

proof fn lemma_trimmed_start(s: Seq<char>)
    ensures
        trimmed_start(s).len() <= s.len(),
        trimmed_start(s) == s.skip(s.len() - trimmed_start(s).len()),
        forall|k: int| 0 <= k < s.len() - trimmed_start(s).len() ==> is_space(#[trigger] s[k]),
        trimmed_start(s).len() > 0 ==> !is_space(trimmed_start(s)[0]),
    decreases s.len(),
{
    if s.len() > 0 && is_space(s[0]) {
        let rest = s.drop_first();
        lemma_trimmed_start(rest);
        let t = trimmed_start(rest);
        assert(rest.skip(rest.len() - t.len()) =~= s.skip(s.len() - t.len()));
        assert forall|k: int| 0 <= k < s.len() - t.len() implies is_space(#[trigger] s[k]) by {
            if k > 0 {
                assert(rest[k - 1] == s[k]);
            }
        }
    } else {
        assert(s.skip(0) =~= s);
    }
}

/// White space are the blank, the tab, the line breaks, the blanks of typesetting and
/// the ideographic space; no letter, digit, visible ASCII character or Chinese
/// character is.
pub proof fn what_white_space_is(c: char)
    ensures
        c == ' ' || c == '\t' || c == '\n' || c == '\r' || c == '\u{b}' || c == '\u{c}' || c
            == '\u{85}' || c == '\u{a0}' || c == '\u{1680}' || c == '\u{2028}' || c == '\u{2029}' || c
            == '\u{202f}' || c == '\u{205f}' || c == '\u{3000}' ==> is_space(c),
        '\u{2000}' <= c <= '\u{200a}' ==> is_space(c),
        c as u32 <= 0x8 || 0xe <= c as u32 <= 0x1f || 0x21 <= c as u32 <= 0x84 || 0x86 <= c as u32
            <= 0x9f || 0xa1 <= c as u32 <= 0x167f || 0x1681 <= c as u32 <= 0x1fff || 0x200b <= c as u32
            <= 0x2027 || 0x2060 <= c as u32 <= 0x2fff || 0x3001 <= c as u32 ==> !is_space(c),
{
}

/// A text is split at the first place of the character: the left side lacks it, and
/// the two sides with it between them are the text.
pub proof fn splitting_is_at_the_first(s: Seq<char>, c: char)
    ensures
        match split_first(s, c) {
            Some((a, b)) => s == a + seq![c] + b && !a.contains(c) && s.contains(c),
            None => !s.contains(c),
        },
{
    lemma_index_from(s, c, 0);
    let i = index_from(s, c, 0);
    if i < s.len() {
        assert(s[i] == c);
        assert(s =~= s.subrange(0, i) + seq![c] + s.subrange(i + 1, s.len() as int));
    }
}

proof fn lemma_index_from(s: Seq<char>, c: char, from: int)
    requires
        0 <= from <= s.len(),
    ensures
        from <= index_from(s, c, from) <= s.len(),
        forall|k: int| from <= k < index_from(s, c, from) ==> s[k] != c,
        index_from(s, c, from) < s.len() ==> s[index_from(s, c, from)] == c,
    decreases s.len() - from,
{
    if from < s.len() && s[from] != c {
        lemma_index_from(s, c, from + 1);
    }
}

/// The place that is found for a part is the first one, and none is found only
/// where the part stands nowhere.
pub proof fn the_first_place_is_found(s: Seq<char>, part: Seq<char>, from: int)
    requires
        0 <= from,
    ensures
        match part_from(s, part, from) {
            Some(i) => from <= i && i + part.len() <= s.len() && s.subrange(i, i + part.len())
                == part && forall|k: int| from <= k < i ==> !occurs_at(s, part, k),
            None => forall|k: int| from <= k ==> !occurs_at(s, part, k),
        },
    decreases s.len() - from + 1,
{
    if from <= s.len() && !occurs_at(s, part, from) {
        the_first_place_is_found(s, part, from + 1);
    }
}

/// What stands between two texts is a part of the whole.
pub proof fn the_middle_is_a_part(before: Seq<char>, part: Seq<char>, after: Seq<char>)
    ensures
        has_part(before + part + after, part),
{
    let n = before.len() as int;
    let whole = before + part + after;
    assert(whole.subrange(n, n + part.len()) =~= part);
    assert(occurs_at(whole, part, n));
}

/// A part stands in a text only where the text is that part with something, or
/// nothing, before and after it.
pub proof fn parts_stand_between(s: Seq<char>, part: Seq<char>, after: Seq<char>)
    ensures
        has_part(s, part) ==> exists|a: Seq<char>, b: Seq<char>| s == #[trigger] (a + part + b),
        begins_with(s, part) ==> s.len() >= part.len() && s.take(part.len() as int) == part,
        begins_with(part + after, part),
{
    assert((part + after).subrange(0, part.len() as int) =~= part);
    if has_part(s, part) {
        let i = choose|i: int| occurs_at(s, part, i);
        let a = s.take(i);
        let b = s.skip(i + part.len());
        assert(s =~= a + part + b);
    }
    if begins_with(s, part) {
        assert(s.take(part.len() as int) =~= s.subrange(0, part.len() as int));
    }
}

/// Joining puts the separator between neighbours and nowhere else.
pub proof fn joining_parts_neighbours(parts: Seq<Seq<char>>, part: Seq<char>, sep: Seq<char>)
    ensures
        joined(Seq::empty(), sep) == Seq::<char>::empty(),
        joined(seq![part], sep) == part,
        parts.len() > 0 ==> joined(parts.push(part), sep) == joined(parts, sep) + sep + part,
{
    assert(parts.push(part).drop_last() =~= parts);
}

/// The first characters of a text: a beginning of it, as long as was asked for or
/// the whole.
pub proof fn first_chars_are_a_beginning(s: Seq<char>, n: nat)
    ensures
        s.len() <= n ==> first_chars(s, n as int) == s,
        s.len() > n ==> first_chars(s, n as int).len() == n,
        forall|i: int|
            0 <= i < first_chars(s, n as int).len() ==> #[trigger] first_chars(s, n as int)[i]
                == s[i],
{
}

/// A number below ten is written as its digit, any other as the number without its
/// last digit and then that digit; a negative one as its opposite behind a dash.
pub proof fn decimals_go_by_tens(n: nat, d: nat)
    requires
        d < 10,
    ensures
        decimal(d).len() == 1 && decimal(d)[0] as int == 0x30 + d,
        n > 0 ==> decimal(n * 10 + d) == decimal(n) + decimal(d),
        integer_text(n as int) == decimal(n),
        n > 0 ==> integer_text(-n) == seq!['-'] + decimal(n),
{
    assert((n * 10 + d) / 10 == n);
    assert((n * 10 + d) % 10 == d);
    if n > 0 {
        assert(decimal(n * 10 + d) =~= decimal(n) + decimal(d));
    }
}

/// Digits are read from the left: each one counts ten times what follows it by one
/// place. Signs are one in front at most, and only the dash makes negative.
pub proof fn digits_are_read_from_the_left(digits: Seq<char>, c: char, max: nat)
    requires
        all_digits(digits),
    ensures
        '0' <= c <= '9' ==> digits_value(digits.push(c)) == digits_value(digits) * 10 + (c as int
            - '0' as int),
        read_unsigned(digits, max) == if digits_value(digits) <= max {
            Some(digits_value(digits))
        } else {
            None
        },
        read_unsigned(seq!['+'] + digits, max) == read_unsigned(digits, max),
        read_unsigned(seq!['-'] + digits, max) is None,
        digits_value(digits) <= 0x7FFF_FFFF_FFFF_FFFF ==> read_i64(digits) == Some(
            digits_value(digits) as int,
        ),
        digits_value(digits) <= 0x8000_0000_0000_0000 ==> read_i64(seq!['-'] + digits) == Some(
            -(digits_value(digits) as int),
        ),
        digits_value(digits) > 0x7FFF_FFFF_FFFF_FFFF ==> read_i64(digits) is None,
        digits_value(digits) > 0x8000_0000_0000_0000 ==> read_i64(seq!['-'] + digits) is None,
{
    assert(digits.push(c).drop_last() =~= digits);
    assert(is_digit(digits[0]));
    assert((seq!['+'] + digits).drop_first() =~= digits);
    assert((seq!['-'] + digits).drop_first() =~= digits);
    let dashed = seq!['-'] + digits;
    assert(!is_digit(dashed[0]));
}

/// What holds a character that is no digit, but for a sign in front, reads as no
/// number, and neither does a text without digits.
pub proof fn only_digits_are_numbers(s: Seq<char>, i: int, max: nat)
    requires
        s.len() == 0 || (1 <= i < s.len() && !('0' <= s[i] <= '9')),
    ensures
        read_unsigned(s, max) is None,
        read_i64(s) is None,
{
    if s.len() > 0 {
        assert(!is_digit(s[i]));
        assert(s.drop_first()[i - 1] == s[i]);
    }
}

/// Trimming takes white space off both sides of a text that neither begins nor ends
/// with it, and nothing else.
pub proof fn trimming_finds_the_core(before: Seq<char>, core: Seq<char>, after: Seq<char>)
    requires
        forall|i: int| 0 <= i < before.len() ==> is_space(#[trigger] before[i]),
        forall|i: int| 0 <= i < after.len() ==> is_space(#[trigger] after[i]),
        core.len() > 0 ==> !is_space(core[0]) && !is_space(core.last()),
    ensures
        trimmed(before + core + after) == core,
    decreases before.len() + after.len(),
{
    let s = before + core + after;
    if core.len() == 0 {
        assert(s =~= before + after);
        lemma_blank(s);
        assert(core =~= Seq::<char>::empty());
    } else {
        lemma_trim_front(before, core + after);
        assert(before + (core + after) =~= s);
        assert((core + after)[0] == core[0]);
        lemma_trim_back(core, after);
    }
}

proof fn lemma_blank(s: Seq<char>)
    requires
        forall|i: int| 0 <= i < s.len() ==> is_space(#[trigger] s[i]),
    ensures
        trimmed(s) == Seq::<char>::empty(),
    decreases s.len(),
{
    lemma_trimmed_start(s);
    let t = trimmed_start(s);
    if t.len() > 0 {
        assert(t[0] == s[s.len() - t.len()]);
    }
    assert(t =~= Seq::<char>::empty());
    assert(trimmed_end(t) == t);
}

proof fn lemma_trim_front(before: Seq<char>, rest: Seq<char>)
    requires
        forall|i: int| 0 <= i < before.len() ==> is_space(#[trigger] before[i]),
        rest.len() > 0 && !is_space(rest[0]),
    ensures
        trimmed_start(before + rest) == rest,
    decreases before.len(),
{
    if before.len() == 0 {
        assert(before + rest =~= rest);
    } else {
        let shorter = before.drop_first();
        assert forall|i: int| 0 <= i < shorter.len() implies is_space(#[trigger] shorter[i]) by {
            assert(shorter[i] == before[i + 1]);
        }
        assert((before + rest)[0] == before[0]);
        assert((before + rest).drop_first() =~= shorter + rest);
        lemma_trim_front(shorter, rest);
    }
}

proof fn lemma_trim_back(core: Seq<char>, after: Seq<char>)
    requires
        forall|i: int| 0 <= i < after.len() ==> is_space(#[trigger] after[i]),
        core.len() > 0 && !is_space(core.last()),
    ensures
        trimmed_end(core + after) == core,
    decreases after.len(),
{
    if after.len() == 0 {
        assert(core + after =~= core);
    } else {
        let shorter = after.drop_last();
        assert forall|i: int| 0 <= i < shorter.len() implies is_space(#[trigger] shorter[i]) by {
            assert(shorter[i] == after[i]);
        }
        assert((core + after).last() == after[after.len() - 1]);
        assert((core + after).drop_last() =~= core + shorter);
        lemma_trim_back(core, shorter);
    }
}

/// Neighbours in a list stand next to each other, the separator between them, in what
/// the list is joined to.
pub proof fn joining_keeps_neighbours(parts: Seq<Seq<char>>, sep: Seq<char>, k: int)
    requires
        0 <= k,
        k + 1 < parts.len(),
    ensures
        has_part(joined(parts, sep), parts[k] + sep + parts[k + 1]),
    decreases parts.len(),
{
    let whole = joined(parts, sep);
    let last = parts.last();
    let rest = parts.drop_last();
    let before = joined(rest, sep);
    let both = parts[k] + sep + parts[k + 1];
    if k + 2 < parts.len() {
        joining_keeps_neighbours(rest, sep, k);
        longer_texts_keep_parts(Seq::empty(), before, sep + last, both);
        assert(Seq::<char>::empty() + before + (sep + last) =~= whole);
    } else {
        let at = before.len() - parts[k].len();
        lemma_joined_ends(rest, sep);
        assert(before.skip(at) == parts[k]);
        assert(whole.subrange(at, at + both.len()) =~= both) by {
            assert(whole =~= before.take(at) + before.skip(at) + sep + last);
        }
        assert(occurs_at(whole, both, at));
    }
}

proof fn lemma_joined_ends(parts: Seq<Seq<char>>, sep: Seq<char>)
    requires
        parts.len() > 0,
    ensures
        joined(parts, sep).len() >= parts.last().len(),
        joined(parts, sep).skip(joined(parts, sep).len() - parts.last().len()) == parts.last(),
{
    let whole = joined(parts, sep);
    assert(whole.skip(whole.len() - parts.last().len()) =~= parts.last());
}

/// The index that is found for a character is the first at which it stands.
pub proof fn the_first_index_is_found(s: Seq<char>, c: char, from: int, at: int)
    requires
        0 <= from <= at < s.len(),
        s[at] == c,
        forall|k: int| from <= k < at ==> s[k] != c,
    ensures
        index_from(s, c, from) == at,
{
    lemma_index_from(s, c, from);
}

/// A part of a part of a text is a part of the text.
pub proof fn a_part_of_a_part(whole: Seq<char>, middle: Seq<char>, part: Seq<char>)
    requires
        has_part(whole, middle),
        has_part(middle, part),
    ensures
        has_part(whole, part),
{
    let i = choose|i: int| occurs_at(whole, middle, i);
    let before = whole.take(i);
    let after = whole.skip(i + middle.len());
    assert(whole =~= before + middle + after);
    longer_texts_keep_parts(before, middle, after, part);
}

/// What stands in one of two lists stands in both put together.
pub proof fn either_list_holds(a: Seq<Seq<char>>, b: Seq<Seq<char>>, s: Seq<char>)
    ensures
        a.contains(s) || b.contains(s) ==> (a + b).contains(s),
{
    if a.contains(s) {
        let k = a.index_of(s);
        assert((a + b)[k] == s);
    } else if b.contains(s) {
        let k = b.index_of(s);
        assert((a + b)[a.len() + k] == s);
    }
}

} // verus!

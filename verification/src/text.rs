//! Text primitives: exact specifications over sequences of characters, and
//! the executable functions that meet them.
use vstd::prelude::*;

verus! {

/// `String::push`: the given character is appended at the end, nothing else
/// changes.
pub assume_specification[ String::push ](s: &mut String, ch: char)
    ensures
        final(s)@ == old(s)@.push(ch),
;

/// The characters of a string, as a vector.
pub fn chars_of(s: &str) -> (r: Vec<char>)
    ensures
        r@ == s@,
{
    let mut out: Vec<char> = Vec::new();
    for c in it: s.chars()
        invariant
            it.seq() == s@,
            out@ == s@.take(it.index() as int),
    {
        out.push(c);
    }
    out
}

/// The string made of the characters `chars[from..to]`.
pub fn string_of(chars: &Vec<char>, from: usize, to: usize) -> (r: String)
    requires
        from <= to <= chars@.len(),
    ensures
        r@ == chars@.subrange(from as int, to as int),
{
    let mut out = String::new();
    let mut i: usize = from;
    while i < to
        invariant
            from <= i <= to <= chars@.len(),
            out@ == chars@.subrange(from as int, i as int),
        decreases to - i,
    {
        out.push(chars[i]);
        i = i + 1;
    }
    out
}

/// Whether two string slices hold the same characters.
pub fn str_eq(a: &str, b: &str) -> (r: bool)
    ensures
        r == (a@ == b@),
{
    a.to_owned() == b.to_owned()
}

// ---------------------------------------------------------------------
// Decimal numbers
// ---------------------------------------------------------------------

/// The decimal digit of a value below ten.
pub open spec fn digit_char(d: int) -> char {
    if d == 0 {
        '0'
    } else if d == 1 {
        '1'
    } else if d == 2 {
        '2'
    } else if d == 3 {
        '3'
    } else if d == 4 {
        '4'
    } else if d == 5 {
        '5'
    } else if d == 6 {
        '6'
    } else if d == 7 {
        '7'
    } else if d == 8 {
        '8'
    } else {
        '9'
    }
}

/// The decimal notation of a natural number, without leading zeros.
pub open spec fn decimal(n: nat) -> Seq<char>
    decreases n,
{
    if n < 10 {
        seq![digit_char(n as int)]
    } else {
        decimal(n / 10).push(digit_char((n % 10) as int))
    }
}

/// The decimal notation of an integer: a minus sign in front of a negative one.
pub open spec fn integer_text(n: int) -> Seq<char> {
    if n < 0 {
        seq!['-'] + decimal((-n) as nat)
    } else {
        decimal(n as nat)
    }
}

pub open spec fn is_digit(c: char) -> bool {
    '0' <= c && c <= '9'
}

pub open spec fn all_digits(s: Seq<char>) -> bool {
    forall|i: int| 0 <= i < s.len() ==> is_digit(#[trigger] s[i])
}

/// The value that a sequence of decimal digits stands for.
pub open spec fn digits_value(s: Seq<char>) -> int
    decreases s.len(),
{
    if s.len() == 0 {
        0
    } else {
        digits_value(s.drop_last()) * 10 + (s.last() as int - '0' as int)
    }
}

/// What follows the sign of a number, or the whole text where it has none.
pub open spec fn unsigned_part(s: Seq<char>) -> Seq<char> {
    if s.len() > 0 && (s[0] == '-' || s[0] == '+') {
        s.drop_first()
    } else {
        s
    }
}

/// The integer that a text denotes: an optional sign and at least one decimal
/// digit, and nothing else.
pub open spec fn integer_of(s: Seq<char>) -> Option<int> {
    let body = unsigned_part(s);
    if body.len() == 0 || !all_digits(body) {
        None
    } else if s[0] == '-' {
        Some(-digits_value(body))
    } else {
        Some(digits_value(body))
    }
}

/// The integer that a text denotes, if it lies between the two bounds.
pub open spec fn integer_within(s: Seq<char>, low: int, high: int) -> Option<int> {
    match integer_of(s) {
        Some(n) => if low <= n <= high {
            Some(n)
        } else {
            None
        },
        None => None,
    }
}

fn digit(d: u128) -> (r: char)
    requires
        d < 10,
    ensures
        r == digit_char(d as int),
{
    if d == 0 {
        '0'
    } else if d == 1 {
        '1'
    } else if d == 2 {
        '2'
    } else if d == 3 {
        '3'
    } else if d == 4 {
        '4'
    } else if d == 5 {
        '5'
    } else if d == 6 {
        '6'
    } else if d == 7 {
        '7'
    } else if d == 8 {
        '8'
    } else {
        '9'
    }
}

/// A natural number in decimal notation.
pub fn decimal_text(n: u128) -> (r: String)
    ensures
        r@ == decimal(n as nat),
    decreases n,
{
    if n < 10 {
        let mut out = String::new();
        out.push(digit(n));
        proof {
            assert(out@ =~= decimal(n as nat));
        }
        out
    } else {
        let mut out = decimal_text(n / 10);
        out.push(digit(n % 10));
        out
    }
}

/// An integer in decimal notation.
pub fn i64_text(n: i64) -> (r: String)
    ensures
        r@ == integer_text(n as int),
{
    if n < 0 {
        let magnitude: u128 = (0i128 - n as i128) as u128;
        let mut out = String::new();
        out.push('-');
        proof {
            assert(out@ =~= seq!['-']);
        }
        out.append(decimal_text(magnitude).as_str());
        out
    } else {
        decimal_text(n as u128)
    }
}

/// A length or a count in decimal notation.
pub fn usize_text(n: usize) -> (r: String)
    ensures
        r@ == decimal(n as nat),
{
    decimal_text(n as u128)
}

proof fn lemma_digits_value_bound(s: Seq<char>, k: int)
    requires
        all_digits(s),
        0 <= k <= s.len(),
    ensures
        0 <= digits_value(s.take(k)) <= digits_value(s),
    decreases s.len(),
{
    if k == s.len() {
        assert(s.take(k) =~= s);
        if s.len() > 0 {
            lemma_digits_value_bound(s.drop_last(), s.len() - 1);
            assert(is_digit(s.last()));
        }
    } else {
        assert(s.drop_last().take(k) =~= s.take(k));
        lemma_digits_value_bound(s.drop_last(), k);
        assert(is_digit(s.last()));
    }
}

/// The integer that a text denotes, where it lies between the two bounds.
pub fn parse_within(s: &str, low: i64, high: i64) -> (r: Option<i64>)
    ensures
        match r {
            Some(n) => integer_within(s@, low as int, high as int) == Some(n as int),
            None => integer_within(s@, low as int, high as int) is None,
        },
{
    let chars = chars_of(s);
    let signed: bool = chars.len() > 0 && (chars[0] == '-' || chars[0] == '+');
    let negative: bool = chars.len() > 0 && chars[0] == '-';
    let start: usize = if signed {
        1
    } else {
        0
    };
    let ghost body = unsigned_part(s@);
    assert(body =~= s@.subrange(start as int, s@.len() as int));
    if chars.len() == start {
        return None;
    }
    let mut value: i128 = 0;
    let mut huge: bool = false;
    let mut i: usize = start;
    while i < chars.len()
        invariant
            start <= i <= chars@.len(),
            chars@ == s@,
            body == s@.subrange(start as int, s@.len() as int),
            body == unsigned_part(s@),
            0 <= value <= 0x1_0000_0000_0000_0000,
            all_digits(body.take(i - start)),
            !huge ==> value == digits_value(body.take(i - start)),
            huge ==> digits_value(body.take(i - start)) > 0x1_0000_0000_0000_0000,
        decreases chars@.len() - i,
    {
        let c = chars[i];
        assert(body[i - start] == c);
        if !(c >= '0' && c <= '9') {
            assert(!all_digits(body));
            return None;
        }
        proof {
            let before = body.take(i - start);
            let after = body.take(i - start + 1);
            assert(after.drop_last() =~= before);
            assert(after.last() == c);
            lemma_digits_value_bound(before, before.len() as int);
        }
        if !huge {
            let next: i128 = value * 10 + (c as u32 as i128 - '0' as u32 as i128);
            if next > 0x1_0000_0000_0000_0000 {
                huge = true;
            } else {
                value = next;
            }
        }
        i = i + 1;
    }
    assert(body.take(body.len() as int) =~= body);
    if huge {
        return None;
    }
    let signed_value: i128 = if negative {
        0 - value
    } else {
        value
    };
    if signed_value < low as i128 || signed_value > high as i128 {
        None
    } else {
        Some(signed_value as i64)
    }
}

/// Reading back the decimal notation of an integer gives the integer.
pub proof fn law_integer_text_reads_back(n: int)
    ensures
        integer_of(integer_text(n)) == Some(n),
{
    let magnitude: nat = if n < 0 {
        (-n) as nat
    } else {
        n as nat
    };
    lemma_decimal_reads_back(magnitude);
    if n < 0 {
        assert(integer_text(n).drop_first() =~= decimal(magnitude));
    } else {
        assert(is_digit(decimal(magnitude)[0]));
    }
}

proof fn lemma_decimal_reads_back(n: nat)
    ensures
        decimal(n).len() > 0,
        all_digits(decimal(n)),
        digits_value(decimal(n)) == n,
    decreases n,
{
    if n < 10 {
        reveal_with_fuel(digits_value, 2);
        assert(decimal(n).drop_last() =~= Seq::<char>::empty());
    } else {
        lemma_decimal_reads_back(n / 10);
        assert(decimal(n).drop_last() =~= decimal(n / 10));
    }
}

// ---------------------------------------------------------------------
// White space, letter case
// ---------------------------------------------------------------------

/// The characters with the Unicode property White_Space.
pub open spec fn is_white_space(c: char) -> bool {
    let u = c as u32;
    ||| 0x9 <= u <= 0xd
    ||| u == 0x20
    ||| u == 0x85
    ||| u == 0xa0
    ||| u == 0x1680
    ||| 0x2000 <= u <= 0x200a
    ||| u == 0x2028
    ||| u == 0x2029
    ||| u == 0x202f
    ||| u == 0x205f
    ||| u == 0x3000
}

pub open spec fn trim_start(s: Seq<char>) -> Seq<char>
    decreases s.len(),
{
    if s.len() > 0 && is_white_space(s[0]) {
        trim_start(s.drop_first())
    } else {
        s
    }
}

pub open spec fn trim_end(s: Seq<char>) -> Seq<char>
    decreases s.len(),
{
    if s.len() > 0 && is_white_space(s.last()) {
        trim_end(s.drop_last())
    } else {
        s
    }
}

/// The text without the white space at its two ends.
pub open spec fn trimmed(s: Seq<char>) -> Seq<char> {
    trim_end(trim_start(s))
}

fn white_space(c: char) -> (r: bool)
    ensures
        r == is_white_space(c),
{
    let u: u32 = c as u32;
    (u >= 0x9 && u <= 0xd) || u == 0x20 || u == 0x85 || u == 0xa0 || u == 0x1680 || (u >= 0x2000
        && u <= 0x200a) || u == 0x2028 || u == 0x2029 || u == 0x202f || u == 0x205f || u == 0x3000
}

/// The text without the white space at its two ends.
pub fn trim(s: &str) -> (r: String)
    ensures
        r@ == trimmed(s@),
{
    let chars = chars_of(s);
    let mut from: usize = 0;
    assert(s@.skip(0) =~= s@);
    while from < chars.len() && white_space(chars[from])
        invariant
            from <= chars@.len(),
            chars@ == s@,
            trim_start(s@.skip(from as int)) == trim_start(s@),
        decreases chars@.len() - from,
    {
        assert(s@.skip(from as int).drop_first() =~= s@.skip(from + 1));
        from = from + 1;
    }
    let ghost rest = s@.skip(from as int);
    let mut to: usize = chars.len();
    assert(s@.subrange(from as int, to as int) =~= rest);
    while to > from && white_space(chars[to - 1])
        invariant
            from <= to <= chars@.len(),
            chars@ == s@,
            rest == trim_start(s@),
            trim_end(s@.subrange(from as int, to as int)) == trim_end(rest),
        decreases to,
    {
        assert(s@.subrange(from as int, to as int).drop_last() =~= s@.subrange(
            from as int,
            to - 1,
        ));
        to = to - 1;
    }
    string_of(&chars, from, to)
}

/// The text without any `c` at its end.
pub open spec fn without_trailing(s: Seq<char>, c: char) -> Seq<char>
    decreases s.len(),
{
    if s.len() > 0 && s.last() == c {
        without_trailing(s.drop_last(), c)
    } else {
        s
    }
}

/// The text without any `c` at its end.
pub fn trim_trailing(s: &str, c: char) -> (r: String)
    ensures
        r@ == without_trailing(s@, c),
{
    let chars = chars_of(s);
    let mut to: usize = chars.len();
    assert(s@.take(to as int) =~= s@);
    while to > 0 && chars[to - 1] == c
        invariant
            to <= chars@.len(),
            chars@ == s@,
            without_trailing(s@.take(to as int), c) == without_trailing(s@, c),
        decreases to,
    {
        assert(s@.take(to as int).drop_last() =~= s@.take(to - 1));
        to = to - 1;
    }
    assert(s@.subrange(0, to as int) =~= s@.take(to as int));
    string_of(&chars, 0, to)
}

/// The lower-case form of an ASCII capital; any other character itself.
pub open spec fn ascii_lower_char(c: char) -> char {
    if 'A' <= c && c <= 'Z' {
        ((c as u32 + 32) as u32) as char
    } else {
        c
    }
}

pub open spec fn ascii_lower(s: Seq<char>) -> Seq<char> {
    s.map_values(|c: char| ascii_lower_char(c))
}

/// The text with its ASCII capitals in lower case.
pub fn to_ascii_lower(s: &str) -> (r: String)
    ensures
        r@ == ascii_lower(s@),
{
    let chars = chars_of(s);
    let mut out = String::new();
    let mut i: usize = 0;
    while i < chars.len()
        invariant
            i <= chars@.len(),
            chars@ == s@,
            out@ == ascii_lower(s@.take(i as int)),
        decreases chars@.len() - i,
    {
        let c = chars[i];
        if c >= 'A' && c <= 'Z' {
            out.push((c as u8 + 32) as char);
        } else {
            out.push(c);
        }
        proof {
            assert(ascii_lower(s@.take(i + 1)) =~= ascii_lower(s@.take(i as int)).push(
                ascii_lower_char(c),
            ));
        }
        i = i + 1;
    }
    assert(s@.take(i as int) =~= s@);
    out
}

// ---------------------------------------------------------------------
// Searching and replacing
// ---------------------------------------------------------------------

/// `pattern` stands in `s` at position `i`.
pub open spec fn occurs_at(s: Seq<char>, pattern: Seq<char>, i: int) -> bool {
    0 <= i && i + pattern.len() <= s.len() && s.subrange(i, i + pattern.len()) == pattern
}

/// `pattern` stands somewhere in `s`.
pub open spec fn contains_text(s: Seq<char>, pattern: Seq<char>) -> bool {
    exists|i: int| #[trigger] occurs_at(s, pattern, i)
}

/// The first position, from `from` on, at which `pattern` stands in `s`.
pub open spec fn first_occurrence(s: Seq<char>, pattern: Seq<char>, from: int) -> Option<int>
    decreases s.len() - from + 1,
{
    if from < 0 || from > s.len() {
        None
    } else if occurs_at(s, pattern, from) {
        Some(from)
    } else {
        first_occurrence(s, pattern, from + 1)
    }
}

/// The first occurrence is an occurrence, none comes before it, and where
/// there is no first one there is none at all.
pub proof fn law_first_occurrence(s: Seq<char>, pattern: Seq<char>, from: int)
    requires
        0 <= from,
    ensures
        match first_occurrence(s, pattern, from) {
            Some(i) => from <= i && occurs_at(s, pattern, i) && forall|j: int|
                from <= j < i ==> !#[trigger] occurs_at(s, pattern, j),
            None => forall|j: int| from <= j ==> !#[trigger] occurs_at(s, pattern, j),
        },
    decreases s.len() - from + 1,
{
    if from <= s.len() && !occurs_at(s, pattern, from) {
        law_first_occurrence(s, pattern, from + 1);
    }
}

fn occurs(chars: &Vec<char>, pattern: &Vec<char>, at: usize) -> (r: bool)
    requires
        at <= chars@.len(),
    ensures
        r == occurs_at(chars@, pattern@, at as int),
{
    if pattern.len() > chars.len() - at {
        return false;
    }
    let mut k: usize = 0;
    while k < pattern.len()
        invariant
            k <= pattern@.len(),
            at + pattern@.len() <= chars.len(),
            forall|j: int| 0 <= j < k ==> chars@[at + j] == pattern@[j],
        decreases pattern@.len() - k,
    {
        if chars[at + k] != pattern[k] {
            assert(chars@.subrange(at as int, at + pattern@.len())[k as int] != pattern@[k as int]);
            return false;
        }
        k = k + 1;
    }
    assert(chars@.subrange(at as int, at + pattern@.len()) =~= pattern@);
    true
}

/// The first position, from `from` on, at which `pattern` stands in `chars`.
pub fn find_from(chars: &Vec<char>, pattern: &Vec<char>, from: usize) -> (r: Option<usize>)
    requires
        from <= chars@.len(),
    ensures
        match r {
            Some(i) => first_occurrence(chars@, pattern@, from as int) == Some(i as int) && i
                + pattern@.len() <= chars.len(),
            None => first_occurrence(chars@, pattern@, from as int) is None,
        },
{
    let mut i: usize = from;
    loop
        invariant
            from <= i <= chars@.len(),
            first_occurrence(chars@, pattern@, i as int) == first_occurrence(
                chars@,
                pattern@,
                from as int,
            ),
        decreases chars@.len() - i,
    {
        if occurs(chars, pattern, i) {
            return Some(i);
        }
        if i == chars.len() {
            assert(first_occurrence(chars@, pattern@, i + 1) is None);
            return None;
        }
        i = i + 1;
    }
}

/// Whether `pattern` stands somewhere in `s`.
pub fn contains(s: &str, pattern: &str) -> (r: bool)
    ensures
        r == contains_text(s@, pattern@),
{
    let chars = chars_of(s);
    let wanted = chars_of(pattern);
    proof {
        law_first_occurrence(s@, pattern@, 0);
    }
    match find_from(&chars, &wanted, 0) {
        Some(i) => {
            assert(occurs_at(s@, pattern@, i as int));
            true
        },
        None => false,
    }
}

/// Every occurrence of `pattern`, taken from left to right without overlap,
/// replaced by `by`.
pub open spec fn replaced(s: Seq<char>, pattern: Seq<char>, by: Seq<char>) -> Seq<char>
    decreases s.len(),
{
    match first_occurrence(s, pattern, 0) {
        Some(i) => if pattern.len() > 0 && 0 <= i && i + pattern.len() <= s.len() {
            s.take(i) + by + replaced(s.skip(i + pattern.len()), pattern, by)
        } else {
            s
        },
        None => s,
    }
}

proof fn lemma_first_occurrence_of_skip(s: Seq<char>, pattern: Seq<char>, pos: int, from: int)
    requires
        0 <= pos <= from,
        pos <= s.len(),
    ensures
        first_occurrence(s.skip(pos), pattern, from - pos) == match first_occurrence(
            s,
            pattern,
            from,
        ) {
            Some(i) => Some(i - pos),
            None => None::<int>,
        },
    decreases s.len() - from + 1,
{
    if from <= s.len() {
        if from + pattern.len() <= s.len() {
            assert(s.skip(pos).subrange(from - pos, from - pos + pattern.len()) =~= s.subrange(
                from,
                from + pattern.len(),
            ));
        }
        lemma_first_occurrence_of_skip(s, pattern, pos, from + 1);
    }
}

/// Every occurrence of `pattern` replaced by `by`.
pub fn replace_all(s: &str, pattern: &str, by: &str) -> (r: String)
    requires
        pattern@.len() > 0,
    ensures
        r@ == replaced(s@, pattern@, by@),
{
    let chars = chars_of(s);
    let wanted = chars_of(pattern);
    let mut out = String::new();
    let mut pos: usize = 0;
    assert(s@.skip(0) =~= s@);
    assert(out@ + replaced(s@.skip(0), pattern@, by@) =~= replaced(s@, pattern@, by@));
    loop
        invariant
            pos <= chars@.len(),
            chars@ == s@,
            wanted@ == pattern@,
            pattern@.len() > 0,
            out@ + replaced(s@.skip(pos as int), pattern@, by@) == replaced(s@, pattern@, by@),
        decreases chars@.len() - pos,
    {
        let ghost rest = s@.skip(pos as int);
        proof {
            lemma_first_occurrence_of_skip(s@, pattern@, pos as int, pos as int);
            law_first_occurrence(s@, pattern@, pos as int);
        }
        match find_from(&chars, &wanted, pos) {
            Some(i) => {
                let before = string_of(&chars, pos, i);
                let ghost done = out@;
                out.append(before.as_str());
                out.append(by);
                proof {
                    assert(rest.take(i - pos) =~= before@);
                    assert(rest.skip(i - pos + pattern@.len()) =~= s@.skip(i + pattern@.len()));
                    assert(out@ + replaced(s@.skip(i + pattern@.len()), pattern@, by@) =~= done + (
                    before@ + by@ + replaced(s@.skip(i + pattern@.len()), pattern@, by@)));
                }
                pos = i + wanted.len();
            },
            None => {
                let tail = string_of(&chars, pos, chars.len());
                assert(tail@ =~= rest);
                out.append(tail.as_str());
                return out;
            },
        }
    }
}

/// What follows `prefix`, where `s` begins with it.
pub fn strip_prefix(s: &str, prefix: &str) -> (r: Option<String>)
    ensures
        match r {
            Some(t) => s@ == prefix@ + t@,
            None => !prefix@.is_prefix_of(s@),
        },
{
    let chars = chars_of(s);
    let wanted = chars_of(prefix);
    if occurs(&chars, &wanted, 0) {
        let rest = string_of(&chars, wanted.len(), chars.len());
        assert(s@ =~= prefix@ + rest@);
        Some(rest)
    } else {
        assert(!prefix@.is_prefix_of(s@));
        None
    }
}

/// The characters with a meaning in HTML, `&`, `<` and `>`, replaced by their
/// named references, the ampersand first.
pub open spec fn html_escaped(s: Seq<char>) -> Seq<char> {
    replaced(replaced(replaced(s, "&"@, "&amp;"@), "<"@, "&lt;"@), ">"@, "&gt;"@)
}

/// A text made safe to stand between HTML tags.
pub fn html_escape(s: &str) -> (r: String)
    ensures
        r@ == html_escaped(s@),
{
    proof {
        reveal_strlit("&");
        reveal_strlit("<");
        reveal_strlit(">");
    }
    let ampersands = replace_all(s, "&", "&amp;");
    let opened = replace_all(ampersands.as_str(), "<", "&lt;");
    replace_all(opened.as_str(), ">", "&gt;")
}

// ---------------------------------------------------------------------
// What the text functions give
// ---------------------------------------------------------------------

/// A text stands in what it was put into.
pub proof fn law_contained_text(before: Seq<char>, pattern: Seq<char>, after: Seq<char>)
    ensures
        contains_text(before + pattern + after, pattern),
        occurs_at(before + pattern + after, pattern, before.len() as int),
{
    let s = before + pattern + after;
    assert(s.subrange(before.len() as int, (before.len() + pattern.len()) as int) =~= pattern);
    assert(occurs_at(s, pattern, before.len() as int));
}

/// Where a text stands in another, that one is made of what comes before it, the
/// text, and what comes after.
pub proof fn law_occurrence_splits(s: Seq<char>, pattern: Seq<char>, i: int)
    requires
        occurs_at(s, pattern, i),
    ensures
        s == s.take(i) + pattern + s.skip(i + pattern.len()),
{
    let parts = s.take(i) + pattern + s.skip(i + pattern.len());
    assert forall|k: int| 0 <= k < s.len() implies s[k] == parts[k] by {
        if i <= k < i + pattern.len() {
            assert(s.subrange(i, i + pattern.len())[k - i] == pattern[k - i]);
        }
    }
    assert(s =~= parts);
}

/// Every character of the text is white space.
pub open spec fn all_white(s: Seq<char>) -> bool {
    forall|i: int| 0 <= i < s.len() ==> is_white_space(#[trigger] s[i])
}

proof fn lemma_trim_start(s: Seq<char>)
    ensures
        trim_start(s).len() <= s.len(),
        trim_start(s) == s.skip(s.len() - trim_start(s).len()),
        all_white(s.take(s.len() - trim_start(s).len())),
        trim_start(s).len() > 0 ==> !is_white_space(trim_start(s)[0]),
    decreases s.len(),
{
    if s.len() > 0 && is_white_space(s[0]) {
        let rest = s.drop_first();
        lemma_trim_start(rest);
        let k = s.len() - trim_start(s).len();
        assert(rest.skip(k - 1) =~= s.skip(k));
        assert forall|i: int| 0 <= i < k implies is_white_space(#[trigger] s.take(k)[i]) by {
            if i > 0 {
                assert(rest.take(k - 1)[i - 1] == s[i]);
            }
        }
    } else {
        assert(s.skip(0) =~= s);
    }
}

proof fn lemma_trim_end(s: Seq<char>)
    ensures
        trim_end(s).len() <= s.len(),
        trim_end(s) == s.take(trim_end(s).len() as int),
        all_white(s.skip(trim_end(s).len() as int)),
        trim_end(s).len() > 0 ==> !is_white_space(trim_end(s).last()),
    decreases s.len(),
{
    if s.len() > 0 && is_white_space(s.last()) {
        let rest = s.drop_last();
        lemma_trim_end(rest);
        let n = trim_end(s).len() as int;
        assert(rest.take(n) =~= s.take(n));
        assert forall|i: int| 0 <= i < s.len() - n implies is_white_space(
            #[trigger] s.skip(n)[i],
        ) by {
            if i < rest.len() - n {
                assert(rest.skip(n)[i] == s[n + i]);
            }
        }
    } else {
        assert(s.take(s.len() as int) =~= s);
    }
}

/// Trimming takes the white space from both ends and nothing else: the text is
/// white space, what is left, and white space, and what is left neither begins
/// nor ends with any.
pub proof fn law_trimming_takes_the_ends(s: Seq<char>)
    ensures
        exists|i: int, j: int|
            0 <= i <= j <= s.len() && trimmed(s) == #[trigger] s.subrange(i, j) && all_white(
                s.take(i),
            ) && all_white(s.skip(j)),
        trimmed(s).len() > 0 ==> !is_white_space(trimmed(s)[0]) && !is_white_space(
            trimmed(s).last(),
        ),
{
    lemma_trim_start(s);
    let t = trim_start(s);
    lemma_trim_end(t);
    let i = s.len() - t.len();
    let j = i + trimmed(s).len();
    assert(s.subrange(i, j) =~= t.take(trimmed(s).len() as int));
    assert(s.skip(j) =~= t.skip(trimmed(s).len() as int));
}

/// White space around a text that neither begins nor ends with any makes no
/// difference to it once trimmed.
pub proof fn law_padding_is_trimmed(left: Seq<char>, word: Seq<char>, right: Seq<char>)
    requires
        all_white(left),
        all_white(right),
        word.len() > 0,
        !is_white_space(word[0]),
        !is_white_space(word.last()),
    ensures
        trimmed(left + word + right) == word,
{
    let s = left + word + right;
    lemma_trim_start_of_padded(left, word + right);
    assert(s =~= left + (word + right));
    assert((word + right)[0] == word[0]);
    lemma_trim_end_of_padded(word, right);
}

proof fn lemma_trim_start_of_padded(left: Seq<char>, rest: Seq<char>)
    requires
        all_white(left),
        rest.len() > 0,
        !is_white_space(rest[0]),
    ensures
        trim_start(left + rest) == rest,
    decreases left.len(),
{
    let s = left + rest;
    if left.len() > 0 {
        assert(is_white_space(left[0]));
        assert(s[0] == left[0]);
        let less = left.drop_first();
        assert forall|i: int| 0 <= i < less.len() implies is_white_space(#[trigger] less[i]) by {
            assert(less[i] == left[i + 1]);
        }
        assert(s.drop_first() =~= less + rest);
        lemma_trim_start_of_padded(less, rest);
    } else {
        assert(s =~= rest);
    }
}

proof fn lemma_trim_end_of_padded(word: Seq<char>, right: Seq<char>)
    requires
        all_white(right),
        word.len() > 0,
        !is_white_space(word.last()),
    ensures
        trim_end(word + right) == word,
    decreases right.len(),
{
    let s = word + right;
    if right.len() > 0 {
        assert(is_white_space(right[right.len() - 1]));
        assert(s.last() == right.last());
        let less = right.drop_last();
        assert forall|i: int| 0 <= i < less.len() implies is_white_space(#[trigger] less[i]) by {
            assert(less[i] == right[i]);
        }
        assert(s.drop_last() =~= word + less);
        lemma_trim_end_of_padded(word, less);
    } else {
        assert(s =~= word);
    }
}

/// Of the ASCII characters, the tabulators, line breaks and the space are white
/// space, and no letter, digit or other visible one is.
pub proof fn law_ascii_white_space(c: char)
    requires
        c as u32 <= 0x7f,
    ensures
        is_white_space(c) <==> c == ' ' || c == '\t' || c == '\n' || c == '\r' || c == '\x0b' || c
            == '\x0c',
{
}

/// The lower case of a capital is the letter 32 places on; every other character
/// is left alone, and so is the length of a text.
pub proof fn law_lower_case(s: Seq<char>, i: int)
    requires
        0 <= i < s.len(),
    ensures
        ascii_lower(s).len() == s.len(),
        'A' <= s[i] && s[i] <= 'Z' ==> ascii_lower(s)[i] as u32 == s[i] as u32 + 32,
        !('A' <= s[i] && s[i] <= 'Z') ==> ascii_lower(s)[i] == s[i],
{
}

/// Nothing but `c` is taken from the end, and all of it.
pub proof fn law_trailing_characters(s: Seq<char>, c: char)
    ensures
        without_trailing(s, c).is_prefix_of(s),
        without_trailing(s, c).len() > 0 ==> without_trailing(s, c).last() != c,
        forall|i: int| without_trailing(s, c).len() <= i < s.len() ==> s[i] == c,
    decreases s.len(),
{
    if s.len() > 0 && s.last() == c {
        let rest = s.drop_last();
        law_trailing_characters(rest, c);
        assert forall|i: int| without_trailing(s, c).len() <= i < s.len() implies s[i] == c by {
            if i < rest.len() {
                assert(rest[i] == s[i]);
            }
        }
    }
}

/// Replacing goes from left to right: what stands before the first occurrence is
/// kept, the occurrence gives way, and so on behind it; a text without an
/// occurrence is kept whole.
pub proof fn law_replacing(
    before: Seq<char>,
    pattern: Seq<char>,
    after: Seq<char>,
    by: Seq<char>,
)
    requires
        pattern.len() > 0,
        forall|j: int| j < before.len() ==> !#[trigger] occurs_at(before + pattern + after, pattern, j),
    ensures
        replaced(before + pattern + after, pattern, by) == before + by + replaced(
            after,
            pattern,
            by,
        ),
{
    let s = before + pattern + after;
    law_contained_text(before, pattern, after);
    law_first_occurrence(s, pattern, 0);
    let i = first_occurrence(s, pattern, 0)->0;
    assert(i == before.len());
    assert(s.take(i) =~= before);
    assert(s.skip(i + pattern.len()) =~= after);
}

pub proof fn law_nothing_to_replace(s: Seq<char>, pattern: Seq<char>, by: Seq<char>)
    requires
        !contains_text(s, pattern),
    ensures
        replaced(s, pattern, by) == s,
{
    law_first_occurrence(s, pattern, 0);
}

proof fn lemma_replaced_character(s: Seq<char>, c: char, by: Seq<char>)
    ensures
        s.len() == 0 ==> replaced(s, seq![c], by) == s,
        s.len() > 0 ==> replaced(s, seq![c], by) == (if s[0] == c {
            by
        } else {
            seq![s[0]]
        }) + replaced(s.drop_first(), seq![c], by),
{
    let pattern = seq![c];
    law_first_occurrence(s, pattern, 0);
    if s.len() > 0 {
        let rest = s.drop_first();
        assert(s.skip(1) =~= rest);
        if s[0] == c {
            assert(s.subrange(0, 1) =~= pattern);
            assert(occurs_at(s, pattern, 0));
            assert(s.take(0) + by =~= by);
        } else {
            assert(s.subrange(0, 1)[0] != pattern[0]);
            assert(!occurs_at(s, pattern, 0));
            lemma_first_occurrence_of_skip(s, pattern, 1, 1);
            assert(first_occurrence(s, pattern, 0) == first_occurrence(s, pattern, 1));
            law_first_occurrence(s, pattern, 1);
            match first_occurrence(s, pattern, 1) {
                Some(i) => {
                    assert(first_occurrence(rest, pattern, 0) == Some(i - 1));
                    assert(s.take(i) =~= seq![s[0]] + rest.take(i - 1));
                    assert(s.skip(i + 1) =~= rest.skip(i));
                    assert(replaced(s, pattern, by) =~= seq![s[0]] + replaced(rest, pattern, by));
                },
                None => {
                    assert(s =~= seq![s[0]] + rest);
                },
            }
        }
    } else {
        if let Some(i) = first_occurrence(s, pattern, 0) {
            assert(i + 1 <= s.len());
        }
    }
}

proof fn lemma_replaced_character_append(a: Seq<char>, b: Seq<char>, c: char, by: Seq<char>)
    ensures
        replaced(a + b, seq![c], by) == replaced(a, seq![c], by) + replaced(b, seq![c], by),
    decreases a.len(),
{
    lemma_replaced_character(a, c, by);
    lemma_replaced_character(a + b, c, by);
    if a.len() == 0 {
        assert(a + b =~= b);
        assert(a + replaced(b, seq![c], by) =~= replaced(b, seq![c], by));
    } else {
        assert((a + b).drop_first() =~= a.drop_first() + b);
        lemma_replaced_character_append(a.drop_first(), b, c, by);
        let head = if a[0] == c {
            by
        } else {
            seq![a[0]]
        };
        assert(head + (replaced(a.drop_first(), seq![c], by) + replaced(b, seq![c], by)) =~= head
            + replaced(a.drop_first(), seq![c], by) + replaced(b, seq![c], by));
    }
}

/// Escaping works character by character: a text in two parts is escaped part by
/// part.
pub proof fn law_escaping_goes_by_parts(a: Seq<char>, b: Seq<char>)
    ensures
        html_escaped(a + b) == html_escaped(a) + html_escaped(b),
{
    lemma_html_patterns();
    let a1 = replaced(a, "&"@, "&amp;"@);
    let b1 = replaced(b, "&"@, "&amp;"@);
    let a2 = replaced(a1, "<"@, "&lt;"@);
    let b2 = replaced(b1, "<"@, "&lt;"@);
    lemma_replaced_character_append(a, b, '&', "&amp;"@);
    lemma_replaced_character_append(a1, b1, '<', "&lt;"@);
    lemma_replaced_character_append(a2, b2, '>', "&gt;"@);
}

proof fn lemma_html_patterns()
    ensures
        "&"@ == seq!['&'],
        "<"@ == seq!['<'],
        ">"@ == seq!['>'],
{
    reveal_strlit("&");
    reveal_strlit("<");
    reveal_strlit(">");
    assert("&"@ =~= seq!['&']);
    assert("<"@ =~= seq!['<']);
    assert(">"@ =~= seq!['>']);
}

proof fn lemma_free_of(s: Seq<char>, c: char, by: Seq<char>)
    requires
        forall|i: int| 0 <= i < s.len() ==> s[i] != c,
    ensures
        replaced(s, seq![c], by) == s,
{
    assert forall|i: int| !#[trigger] occurs_at(s, seq![c], i) by {
        if occurs_at(s, seq![c], i) {
            assert(s.subrange(i, i + 1)[0] == s[i]);
            assert(s.subrange(i, i + 1)[0] == c);
        }
    }
    law_nothing_to_replace(s, seq![c], by);
}

/// What a character becomes when it is escaped.
pub proof fn law_escaped_characters(c: char)
    ensures
        c == '&' ==> html_escaped(seq![c]) == "&amp;"@,
        c == '<' ==> html_escaped(seq![c]) == "&lt;"@,
        c == '>' ==> html_escaped(seq![c]) == "&gt;"@,
        c != '&' && c != '<' && c != '>' ==> html_escaped(seq![c]) == seq![c],
        html_escaped(Seq::empty()) == Seq::<char>::empty(),
{
    lemma_html_patterns();
    reveal_strlit("&amp;");
    reveal_strlit("&lt;");
    reveal_strlit("&gt;");
    let s = seq![c];
    let none = Seq::<char>::empty();
    assert(s.drop_first() =~= none);
    lemma_free_of(none, '&', "&amp;"@);
    lemma_free_of(none, '<', "&lt;"@);
    lemma_free_of(none, '>', "&gt;"@);
    lemma_replaced_character(s, '&', "&amp;"@);
    lemma_replaced_character(s, '<', "&lt;"@);
    lemma_replaced_character(s, '>', "&gt;"@);
    assert("&amp;"@ + none =~= "&amp;"@);
    assert("&lt;"@ + none =~= "&lt;"@);
    assert("&gt;"@ + none =~= "&gt;"@);
    assert(s + none =~= s);
    lemma_free_of("&amp;"@, '<', "&lt;"@);
    lemma_free_of("&amp;"@, '>', "&gt;"@);
    lemma_free_of("&lt;"@, '>', "&gt;"@);
}

/// An escaped text holds no bracket that could open or close a tag.
pub proof fn law_escaped_text_has_no_tags(s: Seq<char>, i: int)
    requires
        0 <= i < html_escaped(s).len(),
    ensures
        html_escaped(s)[i] != '<',
        html_escaped(s)[i] != '>',
    decreases s.len(),
{
    law_escaped_characters(' ');
    if s.len() > 0 {
        let head = seq![s[0]];
        let rest = s.drop_first();
        assert(s =~= head + rest);
        law_escaping_goes_by_parts(head, rest);
        law_escaped_characters(s[0]);
        reveal_strlit("&amp;");
        reveal_strlit("&lt;");
        reveal_strlit("&gt;");
        let k = html_escaped(head).len() as int;
        if i >= k {
            law_escaped_text_has_no_tags(rest, i - k);
        }
    } else {
        assert(s =~= Seq::empty());
    }
}

/// The digits of a number count tenfold for each place, zeros in front count
/// nothing, and a plus sign in front of a number leaves it what it is.
pub proof fn law_digits_and_signs(s: Seq<char>, c: char, n: nat)
    ensures
        digits_value(s.push(c)) == 10 * digits_value(s) + (c as int - '0' as int),
        digits_value(seq!['0'] + s) == digits_value(s),
        integer_of(seq!['+'] + decimal(n)) == Some(n as int),
        integer_of(seq!['-'] + decimal(n)) == Some(-(n as int)),
        integer_of(decimal(n)) == Some(n as int),
    decreases s.len(),
{
    assert(s.push(c).drop_last() =~= s);
    if s.len() > 0 {
        law_digits_and_signs(s.drop_last(), c, n);
        assert((seq!['0'] + s).drop_last() =~= seq!['0'] + s.drop_last());
    } else {
        reveal_with_fuel(digits_value, 2);
        assert((seq!['0'] + s).drop_last() =~= Seq::<char>::empty());
        assert(s =~= Seq::<char>::empty());
    }
    lemma_decimal_reads_back(n);
    assert((seq!['+'] + decimal(n)).drop_first() =~= decimal(n));
    assert((seq!['-'] + decimal(n)).drop_first() =~= decimal(n));
    assert(is_digit(decimal(n)[0]));
}

/// A text is a number exactly when it consists of digits, at least one, with at
/// most one sign in front.
pub proof fn law_what_is_a_number(s: Seq<char>, i: int)
    ensures
        s.len() == 0 ==> integer_of(s) is None,
        s.len() == 1 && (s[0] == '-' || s[0] == '+') ==> integer_of(s) is None,
        0 < i < s.len() && !('0' <= s[i] && s[i] <= '9') ==> integer_of(s) is None,
        s.len() > 0 && s[0] != '-' && s[0] != '+' && !('0' <= s[0] && s[0] <= '9') ==> integer_of(s)
            is None,
        integer_of(s) is None && s.len() > 0 && !(s.len() == 1 && (s[0] == '-' || s[0] == '+'))
            ==> (exists|k: int|
            0 <= k < s.len() && !('0' <= #[trigger] s[k] && s[k] <= '9') && (k > 0 || (s[0] != '-'
                && s[0] != '+'))),
{
    let body = unsigned_part(s);
    if s.len() > 0 && (s[0] == '-' || s[0] == '+') {
        if 0 < i < s.len() {
            assert(body[i - 1] == s[i]);
        }
        if body.len() > 0 && !all_digits(body) {
            let k = choose|k: int| 0 <= k < body.len() && !is_digit(#[trigger] body[k]);
            assert(s[k + 1] == body[k]);
        }
    } else if s.len() > 0 {
        if !all_digits(body) {
            let k = choose|k: int| 0 <= k < body.len() && !is_digit(#[trigger] body[k]);
            assert(s[k] == body[k]);
        }
    }
}

} // verus!

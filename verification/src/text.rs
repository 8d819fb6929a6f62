//! Text operations on strings and on sequences of characters.

use vstd::prelude::*;
use vstd::utf8::*;

verus! {

/// The text of an optional string.
pub open spec fn optional_text(text: Option<String>) -> Option<Seq<char>> {
    match text {
        Some(text) => Some(text@),
        None => None,
    }
}

/// The texts of a vector of strings.
pub open spec fn texts(strings: Seq<String>) -> Seq<Seq<char>> {
    strings.map_values(|s: String| s@)
}

// ---------------------------------------------------------------------------
// Standard library calls
// ---------------------------------------------------------------------------

/// `String::push` appends one character.
pub assume_specification[ String::push ](s: &mut String, c: char)
    ensures
        final(s)@ == old(s)@.push(c),
;

/// The lowercase equivalent of a text, as `str::to_lowercase` computes it from the Unicode tables.
pub uninterp spec fn lowercase(s: Seq<char>) -> Seq<char>;

/// The lowercase equivalent of a text whose characters are all ASCII.
pub open spec fn ascii_lowercase(s: Seq<char>) -> Seq<char> {
    s.map_values(|c: char| ascii_lower_char(c))
}

/// The lowercase equivalent of an ASCII character.
pub open spec fn ascii_lower_char(c: char) -> char {
    if 'A' <= c && c <= 'Z' {
        (c as u32 + 32) as char
    } else {
        c
    }
}

/// `str::to_lowercase`. The result is a function of the text alone; on ASCII text it maps the
/// letters `A` to `Z` to `a` to `z` and keeps every other character. What the Unicode tables say
/// of other text is left to the name `lowercase`.
#[verifier::external_body]
fn to_lowercase(s: &str) -> (r: String)
    ensures
        r@ == lowercase(s@),
        is_ascii_chars(s@) ==> r@ == ascii_lowercase(s@),
{
    s.to_lowercase()
}

/// A text in lower case: the ASCII letters first, then, where there are other characters, what the
/// Unicode tables say of the rest. An ASCII letter has one lower case wherever it stands, and other
/// characters do not look at its case, so the order makes no difference.
pub open spec fn lowered(s: Seq<char>) -> Seq<char> {
    if is_ascii_chars(s) {
        ascii_lowercase(s)
    } else {
        lowercase(ascii_lowercase(s))
    }
}

/// Puts the ASCII letters of a text in lower case.
pub fn lower_ascii(s: &str) -> (r: String)
    ensures
        r@ == ascii_lowercase(s@),
{
    let chars = chars_of(s);
    let mut out: String = String::new();
    for i in 0..chars.len()
        invariant
            out@ == ascii_lowercase(chars@.take(i as int)),
    {
        let c = chars[i];
        let l: char = if 'A' <= c && c <= 'Z' {
            (c as u8 + 32) as char
        } else {
            c
        };
        out.push(l);
        assert(ascii_lowercase(chars@.take(i + 1)) =~= ascii_lowercase(chars@.take(i as int)).push(
            ascii_lower_char(c),
        ));
    }
    assert(chars@.take(chars@.len() as int) =~= chars@);
    out
}

/// Puts a text in lower case.
pub fn lower(s: &str) -> (r: String)
    ensures
        r@ == lowered(s@),
{
    let ascii = lower_ascii(s);
    let r = to_lowercase(ascii.as_str());
    proof {
        if is_ascii_chars(s@) {
            assert(is_ascii_chars(ascii@)) by {
                assert forall|i: int| 0 <= i < ascii@.len() implies '\0' <= #[trigger] ascii@[i]
                    <= '\u{7f}' by {
                    assert('\0' <= s@[i] <= '\u{7f}');
                }
            }
            assert(ascii_lowercase(ascii@) =~= ascii@);
        }
    }
    r
}

/// Two texts differ in the case of ASCII letters alone.
pub open spec fn differ_in_case_alone(a: Seq<char>, b: Seq<char>) -> bool {
    &&& a.len() == b.len()
    &&& forall|i: int|
        0 <= i < a.len() ==> ascii_lower_char(#[trigger] a[i]) == ascii_lower_char(b[i])
}

/// Texts that differ in the case of ASCII letters alone have the same lower case.
pub proof fn case_does_not_matter_to_lower_case(a: Seq<char>, b: Seq<char>)
    requires
        differ_in_case_alone(a, b),
    ensures
        lowered(a) == lowered(b),
{
    assert(ascii_lowercase(a) =~= ascii_lowercase(b));
    assert(is_ascii_chars(a) == is_ascii_chars(b)) by {
        if is_ascii_chars(a) {
            assert forall|i: int| 0 <= i < b.len() implies '\0' <= #[trigger] b[i] <= '\u{7f}' by {
                assert('\0' <= a[i] <= '\u{7f}');
            }
        }
        if is_ascii_chars(b) {
            assert forall|i: int| 0 <= i < a.len() implies '\0' <= #[trigger] a[i] <= '\u{7f}' by {
                assert('\0' <= b[i] <= '\u{7f}');
            }
        }
    }
}

/// `String::from_utf8`: the decoded text of well-formed UTF-8, and nothing for other bytes.
#[verifier::external_body]
pub(crate) fn string_from_utf8(bytes: Vec<u8>) -> (r: Option<String>)
    ensures
        r is Some <==> valid_utf8(bytes@),
        r matches Some(s) ==> s@ == decode_utf8(bytes@),
{
    String::from_utf8(bytes).ok()
}

/// The text that the `Debug` implementation of `Option<String>` writes for a value.
pub uninterp spec fn debug_of_optional_text(text: Option<Seq<char>>) -> Seq<char>;

/// The `{:?}` formatting of an `Option<String>`. The text is a function of the value alone; how
/// quoting and escaping come out is left to the name `debug_of_optional_text`.
#[verifier::external_body]
pub(crate) fn debug_optional_string(text: &Option<String>) -> (r: String)
    ensures
        r@ == debug_of_optional_text(optional_text(*text)),
{
    format!("{:?}", text)
}

// ---------------------------------------------------------------------------
// Characters and strings
// ---------------------------------------------------------------------------

/// Tells whether two strings are the same text.
pub fn same_text(a: &str, b: &str) -> (r: bool)
    ensures
        r == (a@ == b@),
{
    a.to_owned() == b.to_owned()
}

/// The characters of a string.
pub fn chars_of(s: &str) -> (r: Vec<char>)
    ensures
        r@ == s@,
{
    let mut v: Vec<char> = Vec::new();
    for c in it: s.chars()
        invariant
            v@ == it.seq().take(it.index()),
    {
        v.push(c);
    }
    v
}

/// A text with every `from` replaced by `to`.
pub open spec fn replaced(s: Seq<char>, from: char, to: char) -> Seq<char> {
    s.map_values(|c: char| if c == from { to } else { c })
}

/// Replaces every occurrence of one character by another.
pub fn replace_char(s: &str, from: char, to: char) -> (r: String)
    ensures
        r@ == replaced(s@, from, to),
{
    let chars = chars_of(s);
    let mut out: String = String::new();
    for i in 0..chars.len()
        invariant
            out@ == replaced(chars@.take(i as int), from, to),
    {
        let c = chars[i];
        out.push(if c == from { to } else { c });
        assert(replaced(chars@.take(i + 1), from, to) =~= replaced(chars@.take(i as int), from, to).push(
            if c == from { to } else { c },
        ));
    }
    assert(chars@.take(chars@.len() as int) =~= chars@);
    out
}

/// Tells whether a string begins with another.
pub fn starts_with(s: &str, prefix: &str) -> (r: bool)
    ensures
        r == prefix@.is_prefix_of(s@),
{
    let t = chars_of(s);
    let p = chars_of(prefix);
    if p.len() > t.len() {
        return false;
    }
    for i in 0..p.len()
        invariant
            t@ == s@,
            p@ == prefix@,
            p@.len() <= t@.len(),
            forall|j: int| 0 <= j < i ==> p@[j] == t@[j],
    {
        if p[i] != t[i] {
            assert(t@.subrange(0, p@.len() as int)[i as int] != p@[i as int]);
            return false;
        }
    }
    assert(t@.subrange(0, p@.len() as int) =~= p@);
    true
}

/// Tells whether a string ends with another.
pub fn ends_with(s: &str, suffix: &str) -> (r: bool)
    ensures
        r == suffix@.is_suffix_of(s@),
{
    let t = chars_of(s);
    let p = chars_of(suffix);
    let total: usize = t.len();
    if p.len() > total {
        return false;
    }
    let start: usize = total - p.len();
    for i in 0..p.len()
        invariant
            t@ == s@,
            p@ == suffix@,
            total == t@.len(),
            start == total - p@.len(),
            forall|j: int| 0 <= j < i ==> p@[j] == t@[start + j],
    {
        if p[i] != t[start + i] {
            assert(t@.subrange(start as int, t@.len() as int)[i as int] != p@[i as int]);
            return false;
        }
    }
    assert(t@.subrange(start as int, t@.len() as int) =~= p@);
    true
}

// ---------------------------------------------------------------------------
// Splitting and joining
// ---------------------------------------------------------------------------

/// The parts of a text between the occurrences of a separator: one part more than there are
/// separators, the parts next to each other possibly empty.
pub open spec fn split(s: Seq<char>, separator: char) -> Seq<Seq<char>>
    decreases s.len(),
{
    if s.len() == 0 {
        seq![Seq::<char>::empty()]
    } else {
        let parts = split(s.drop_last(), separator);
        if s.last() == separator {
            parts.push(Seq::empty())
        } else {
            parts.drop_last().push(parts.last().push(s.last()))
        }
    }
}

/// The texts of a vector of character vectors.
pub open spec fn part_texts(parts: Seq<Vec<char>>) -> Seq<Seq<char>> {
    parts.map_values(|p: Vec<char>| p@)
}

/// Splits a text at every occurrence of a separator.
pub fn split_at_char(s: &Vec<char>, separator: char) -> (r: Vec<Vec<char>>)
    ensures
        part_texts(r@) == split(s@, separator),
        r@.len() > 0,
{
    let mut parts: Vec<Vec<char>> = Vec::new();
    let mut current: Vec<char> = Vec::new();
    assert(s@.take(0) =~= Seq::<char>::empty());
    assert(part_texts(parts@).push(current@) =~= split(s@.take(0), separator));
    for i in 0..s.len()
        invariant
            part_texts(parts@).push(current@) == split(s@.take(i as int), separator),
    {
        let ghost before = part_texts(parts@).push(current@);
        assert(s@.take(i + 1).drop_last() =~= s@.take(i as int));
        if s[i] == separator {
            parts.push(current);
            current = Vec::new();
            assert(part_texts(parts@) =~= before);
            assert(current@ =~= Seq::<char>::empty());
        } else {
            current.push(s[i]);
            assert(before.drop_last() =~= part_texts(parts@));
        }
    }
    assert(s@.take(s@.len() as int) =~= s@);
    let ghost done = part_texts(parts@);
    let ghost last = current@;
    parts.push(current);
    assert(part_texts(parts@) =~= done.push(last));
    parts
}

/// The given texts one after the other, with a separator between two neighbours.
pub open spec fn joined(parts: Seq<Seq<char>>, separator: Seq<char>) -> Seq<char>
    decreases parts.len(),
{
    if parts.len() == 0 {
        Seq::empty()
    } else if parts.len() == 1 {
        parts[0]
    } else {
        joined(parts.drop_last(), separator) + separator + parts.last()
    }
}

/// Joins strings with a separator between two neighbours.
pub fn join(parts: &Vec<String>, separator: &str) -> (r: String)
    ensures
        r@ == joined(texts(parts@), separator@),
{
    let mut out: String = String::new();
    assert(texts(parts@).take(0) =~= Seq::<Seq<char>>::empty());
    for i in 0..parts.len()
        invariant
            out@ == joined(texts(parts@).take(i as int), separator@),
    {
        let ghost all = texts(parts@);
        assert(all.take(i + 1).drop_last() =~= all.take(i as int));
        assert(all.take(i + 1).last() == parts@[i as int]@);
        if i == 0 {
            out = parts[i].clone();
        } else {
            out.append(separator);
            out.append(parts[i].as_str());
        }
    }
    assert(texts(parts@).take(parts@.len() as int) =~= texts(parts@));
    out
}

/// Splitting a text at a separator and joining the parts with it gives the text back, and no
/// part holds the separator.
pub proof fn split_then_join(s: Seq<char>, separator: char)
    ensures
        joined(split(s, separator), seq![separator]) == s,
        forall|i: int|
            0 <= i < split(s, separator).len() ==> !(#[trigger] split(s, separator)[i]).contains(
                separator,
            ),
        split(s, separator).len() > 0,
    decreases s.len(),
{
    let parts = split(s, separator);
    if s.len() == 0 {
        assert(parts[0] =~= s);
    } else {
        let before = split(s.drop_last(), separator);
        split_then_join(s.drop_last(), separator);
        assert(s =~= s.drop_last().push(s.last()));
        if s.last() == separator {
            assert(parts.drop_last() =~= before);
            assert(s =~= s.drop_last() + seq![separator] + Seq::<char>::empty());
        } else {
            assert(parts.drop_last() =~= before.drop_last());
            assert(parts.last() == before.last().push(s.last()));
            let grown = parts.last();
            assert(!grown.contains(separator)) by {
                if grown.contains(separator) {
                    let j = choose|j: int| 0 <= j < grown.len() && grown[j] == separator;
                    if j < before.last().len() {
                        assert(before.last()[j] == separator);
                        assert(before[before.len() - 1].contains(separator));
                    }
                }
            }
            assert forall|i: int| 0 <= i < parts.len() implies !(#[trigger] parts[i]).contains(
                separator,
            ) by {
                if i < before.len() - 1 {
                    assert(parts[i] == before[i]);
                }
            }
            if before.len() == 1 {
                assert(joined(parts, seq![separator]) == parts[0]);
                assert(joined(before, seq![separator]) == before[0]);
                assert(parts[0] =~= s);
            } else {
                let head = joined(before.drop_last(), seq![separator]) + seq![separator];
                assert(head + before.last().push(s.last()) =~= (head + before.last()).push(s.last()));
            }
        }
    }
}

// ---------------------------------------------------------------------------
// White space
// ---------------------------------------------------------------------------

/// The characters with the Unicode property `White_Space`.
pub open spec fn is_white_space(c: char) -> bool {
    let u = c as u32;
    ||| 0x09 <= u <= 0x0d
    ||| u == 0x20
    ||| u == 0x85
    ||| u == 0xa0
    ||| u == 0x1680
    ||| 0x2000 <= u <= 0x200a
    ||| u == 0x2028
    ||| u == 0x2029
    ||| u == 0x202f
    ||| u == 0x205f
    ||| u == 0x3000
}

/// Tells whether a character is white space.
pub fn white_space(c: char) -> (r: bool)
    ensures
        r == is_white_space(c),
{
    let u: u32 = c as u32;
    (0x09 <= u && u <= 0x0d) || u == 0x20 || u == 0x85 || u == 0xa0 || u == 0x1680 || (0x2000 <= u
        && u <= 0x200a) || u == 0x2028 || u == 0x2029 || u == 0x202f || u == 0x205f || u == 0x3000
}

/// A text without its leading white space.
pub open spec fn trimmed_start(s: Seq<char>) -> Seq<char>
    decreases s.len(),
{
    if s.len() > 0 && is_white_space(s[0]) {
        trimmed_start(s.drop_first())
    } else {
        s
    }
}

/// A text without its trailing white space.
pub open spec fn trimmed_end(s: Seq<char>) -> Seq<char>
    decreases s.len(),
{
    if s.len() > 0 && is_white_space(s.last()) {
        trimmed_end(s.drop_last())
    } else {
        s
    }
}

/// A text without its leading and trailing white space.
pub open spec fn trimmed(s: Seq<char>) -> Seq<char> {
    trimmed_end(trimmed_start(s))
}

/// Removes leading and trailing white space.
pub fn trim(s: &Vec<char>) -> (r: Vec<char>)
    ensures
        r@ == trimmed(s@),
{
    let mut start: usize = 0;
    assert(s@.skip(0) =~= s@);
    while start < s.len() && white_space(s[start])
        invariant
            start <= s@.len(),
            trimmed_start(s@.skip(start as int)) == trimmed_start(s@),
        decreases s@.len() - start,
    {
        assert(s@.skip(start as int).drop_first() =~= s@.skip(start + 1));
        start = start + 1;
    }
    let ghost middle = s@.skip(start as int);
    assert(trimmed_start(s@) == middle);
    let mut end: usize = s.len();
    assert(middle.take(end - start) =~= middle);
    while end > start && white_space(s[end - 1])
        invariant
            start <= end <= s@.len(),
            middle == s@.skip(start as int),
            trimmed_end(middle.take(end - start)) == trimmed_end(middle),
        decreases end,
    {
        assert(middle.take(end - start).drop_last() =~= middle.take(end - 1 - start));
        end = end - 1;
    }
    assert(trimmed_end(middle) == middle.take(end - start));
    let mut out: Vec<char> = Vec::new();
    for i in start..end
        invariant
            start <= end <= s@.len(),
            out@ == s@.subrange(start as int, i as int),
    {
        out.push(s[i]);
        assert(s@.subrange(start as int, i + 1) =~= s@.subrange(start as int, i as int).push(
            s@[i as int],
        ));
    }
    assert(middle.take(end - start) =~= s@.subrange(start as int, end as int));
    out
}

// ---------------------------------------------------------------------------
// Decimal numbers
// ---------------------------------------------------------------------------

/// The decimal digit of a number below ten.
pub open spec fn digit_char(d: nat) -> char {
    (('0' as u32) + d) as char
}

/// The decimal digits of a number, without leading zeros.
pub open spec fn decimal(n: nat) -> Seq<char>
    decreases n,
{
    if n < 10 {
        seq![digit_char(n)]
    } else {
        decimal(n / 10).push(digit_char(n % 10))
    }
}

/// Writes a number in decimal.
pub fn decimal_string(n: u32) -> (r: String)
    ensures
        r@ == decimal(n as nat),
    decreases n,
{
    let d: u8 = (n % 10) as u8;
    let c: char = (48 + d) as char;
    let mut s: String = if n < 10 {
        String::new()
    } else {
        decimal_string(n / 10)
    };
    s.push(c);
    assert(s@ =~= decimal(n as nat));
    s
}

/// Tells whether a character is an ASCII digit.
pub open spec fn is_digit(c: char) -> bool {
    '0' <= c && c <= '9'
}

/// The number that a text of digits writes in decimal.
pub open spec fn digits_value(s: Seq<char>) -> nat
    decreases s.len(),
{
    if s.len() == 0 {
        0
    } else {
        digits_value(s.drop_last()) * 10 + (s.last() as nat - '0' as nat) as nat
    }
}

/// The digits of a number: what follows an optional plus sign.
pub open spec fn number_digits(s: Seq<char>) -> Seq<char> {
    if s.len() > 0 && s[0] == '+' {
        s.drop_first()
    } else {
        s
    }
}

/// The `u32` that a text writes: an optional plus sign, then at least one digit and only digits,
/// with a value that fits.
pub open spec fn parsed_u32(s: Seq<char>) -> Option<u32> {
    let d = number_digits(s);
    if d.len() > 0 && (forall|i: int| 0 <= i < d.len() ==> is_digit(#[trigger] d[i]))
        && digits_value(d) <= u32::MAX {
        Some(digits_value(d) as u32)
    } else {
        None
    }
}

/// Parses a `u32`.
pub fn parse_u32(s: &Vec<char>) -> (r: Option<u32>)
    ensures
        r == parsed_u32(s@),
{
    let start: usize = if s.len() > 0 && s[0] == '+' {
        1
    } else {
        0
    };
    let ghost d = number_digits(s@);
    assert(d =~= s@.skip(start as int));
    if start == s.len() {
        return None;
    }
    let mut i: usize = start;
    let mut value: u64 = 0;
    let mut fits: bool = true;
    assert(d.take(0) =~= Seq::<char>::empty());
    while i < s.len()
        invariant
            start <= i <= s@.len(),
            d == s@.skip(start as int),
            d == number_digits(s@),
            forall|j: int| 0 <= j < i - start ==> is_digit(#[trigger] d[j]),
            fits ==> value <= u32::MAX && value == digits_value(d.take(i - start)),
            !fits ==> digits_value(d.take(i - start)) > u32::MAX,
        decreases s@.len() - i,
    {
        let c = s[i];
        assert(d[i - start] == c);
        if !('0' <= c && c <= '9') {
            assert(!is_digit(d[i - start]));
            return None;
        }
        let ghost k = i - start;
        assert(d.take(k + 1).drop_last() =~= d.take(k));
        assert(digits_value(d.take(k + 1)) == digits_value(d.take(k)) * 10 + (c as nat - '0' as nat));
        if fits {
            value = value * 10 + (c as u32 - '0' as u32) as u64;
            if value > u32::MAX as u64 {
                fits = false;
            }
        }
        i = i + 1;
    }
    assert(d.take(i - start) =~= d);
    if fits {
        Some(value as u32)
    } else {
        None
    }
}

/// Reading a number back from its decimal digits gives the number.
pub proof fn decimal_then_parse(n: u32)
    ensures
        parsed_u32(decimal(n as nat)) == Some(n),
{
    decimal_digits(n as nat);
    let d = decimal(n as nat);
    assert(is_digit(d[0]));
    assert(number_digits(d) == d);
}

proof fn decimal_digits(n: nat)
    ensures
        decimal(n).len() > 0,
        forall|i: int| 0 <= i < decimal(n).len() ==> is_digit(#[trigger] decimal(n)[i]),
        digits_value(decimal(n)) == n,
    decreases n,
{
    let d = decimal(n);
    if n < 10 {
        assert(d.drop_last() =~= Seq::<char>::empty());
        assert(digits_value(d.drop_last()) == 0);
    } else {
        decimal_digits(n / 10);
        let head = decimal(n / 10);
        assert(d.drop_last() =~= head);
        assert forall|i: int| 0 <= i < d.len() implies is_digit(#[trigger] d[i]) by {
            if i < head.len() {
                assert(d[i] == head[i]);
            }
        }
    }
}

// ---------------------------------------------------------------------------
// What holds of all texts
// ---------------------------------------------------------------------------

/// In lower case the letters `A` to `Z` are 32 further on, and every other character stays; so no
/// such letter is left, and doing it again changes nothing.
pub proof fn lower_case_of_an_ascii_character(c: char)
    ensures
        'A' <= c && c <= 'Z' ==> ascii_lower_char(c) as int == c as int + 32,
        !('A' <= c && c <= 'Z') ==> ascii_lower_char(c) == c,
        !('A' <= ascii_lower_char(c) && ascii_lower_char(c) <= 'Z'),
{
}

/// The lower case of an ASCII text has as many characters, each the lower case of the one in its
/// place.
pub proof fn ascii_text_is_lowered_in_place(s: Seq<char>, i: int)
    requires
        is_ascii_chars(s),
        0 <= i < s.len(),
    ensures
        lowered(s).len() == s.len(),
        'A' <= s[i] && s[i] <= 'Z' ==> lowered(s)[i] as int == s[i] as int + 32,
        !('A' <= s[i] && s[i] <= 'Z') ==> lowered(s)[i] == s[i],
{
}

/// Replacing keeps the places of all characters, and changes those alone that are replaced.
pub proof fn replacing_keeps_places(s: Seq<char>, from: char, to: char, i: int)
    requires
        0 <= i < s.len(),
    ensures
        replaced(s, from, to).len() == s.len(),
        s[i] == from ==> replaced(s, from, to)[i] == to,
        s[i] != from ==> replaced(s, from, to)[i] == s[i],
{
}

/// Joined texts are those of the first parts, a separator, and those of the rest, wherever the
/// parts are divided; a single part is joined to itself.
pub proof fn joining_may_be_divided(a: Seq<Seq<char>>, b: Seq<Seq<char>>, separator: Seq<char>)
    requires
        a.len() > 0,
        b.len() > 0,
    ensures
        joined(a + b, separator) == joined(a, separator) + separator + joined(b, separator),
        a.len() == 1 ==> joined(a, separator) == a[0],
        joined(Seq::<Seq<char>>::empty(), separator) == Seq::<char>::empty(),
    decreases b.len(),
{
    assert((a + b).last() == b.last());
    assert((a + b).drop_last() =~= a + b.drop_last());
    if b.len() == 1 {
        assert(a + b.drop_last() =~= a);
    } else {
        joining_may_be_divided(a, b.drop_last(), separator);
        assert(joined(a, separator) + separator + joined(b.drop_last(), separator) + separator
            + b.last() =~= joined(a, separator) + separator + (joined(b.drop_last(), separator)
            + separator + b.last()));
    }
}

/// The parts of two texts with a separator between them are the parts of the one and then those of
/// the other.
pub proof fn splitting_may_be_divided(s: Seq<char>, t: Seq<char>, separator: char)
    ensures
        split(s + seq![separator] + t, separator) == split(s, separator) + split(t, separator),
    decreases t.len(),
{
    let whole = s + seq![separator] + t;
    if t.len() == 0 {
        assert(whole.drop_last() =~= s);
        assert(split(whole, separator) =~= split(s, separator) + split(t, separator));
    } else {
        splitting_may_be_divided(s, t.drop_last(), separator);
        split_then_join(t.drop_last(), separator);
        assert(whole.drop_last() =~= s + seq![separator] + t.drop_last());
        assert(split(whole, separator) =~= split(s, separator) + split(t, separator));
    }
}

/// A text without the separator is its only part.
pub proof fn a_text_without_separator_is_one_part(s: Seq<char>, separator: char)
    requires
        !s.contains(separator),
    ensures
        split(s, separator) == seq![s],
    decreases s.len(),
{
    if s.len() > 0 {
        assert(s.last() == s[s.len() - 1]);
        assert(!s.drop_last().contains(separator)) by {
            if s.drop_last().contains(separator) {
                let j = choose|j: int|
                    0 <= j < s.drop_last().len() && s.drop_last()[j] == separator;
                assert(s[j] == separator);
            }
        }
        a_text_without_separator_is_one_part(s.drop_last(), separator);
        assert(s.drop_last().push(s.last()) =~= s);
        assert(split(s, separator) =~= seq![s]);
    } else {
        assert(s =~= Seq::<char>::empty());
    }
}

/// Joining parts with a separator that none of them holds and splitting the text gives the parts
/// back.
pub proof fn join_then_split(parts: Seq<Seq<char>>, separator: char)
    requires
        parts.len() > 0,
        forall|i: int| 0 <= i < parts.len() ==> !(#[trigger] parts[i]).contains(separator),
    ensures
        split(joined(parts, seq![separator]), separator) == parts,
    decreases parts.len(),
{
    let last = parts.last();
    assert(last == parts[parts.len() - 1]);
    a_text_without_separator_is_one_part(last, separator);
    if parts.len() > 1 {
        let before = parts.drop_last();
        assert forall|i: int| 0 <= i < before.len() implies !(#[trigger] before[i]).contains(
            separator,
        ) by {
            assert(before[i] == parts[i]);
        }
        join_then_split(before, separator);
        splitting_may_be_divided(joined(before, seq![separator]), last, separator);
        assert(before + seq![last] =~= parts);
    } else {
        assert(seq![last] =~= parts);
    }
}

/// All characters of a text are white space.
pub open spec fn is_blank(s: Seq<char>) -> bool {
    forall|i: int| 0 <= i < s.len() ==> is_white_space(#[trigger] s[i])
}

/// Trimming takes away the white space at both ends and nothing else: of a text between blanks that
/// neither begins nor ends with white space, the text stays; of a blank, nothing.
pub proof fn trimming_takes_blanks_away(before: Seq<char>, core: Seq<char>, after: Seq<char>)
    requires
        is_blank(before),
        is_blank(after),
        core.len() > 0 ==> !is_white_space(core[0]) && !is_white_space(core.last()),
    ensures
        trimmed(before + core + after) == core,
{
    if core.len() > 0 {
        trimmed_start_of(before, core + after);
        assert(before + core + after =~= before + (core + after));
        trimmed_end_of(core, after);
    } else {
        let empty = Seq::<char>::empty();
        assert(is_blank(before + after));
        trimmed_start_of(before + after, empty);
        assert(before + core + after =~= (before + after) + empty);
        assert(core =~= empty);
    }
}

proof fn trimmed_start_of(blank: Seq<char>, rest: Seq<char>)
    requires
        is_blank(blank),
        rest.len() > 0 ==> !is_white_space(rest[0]),
    ensures
        trimmed_start(blank + rest) == rest,
    decreases blank.len(),
{
    if blank.len() > 0 {
        assert(is_white_space(blank[0]));
        assert((blank + rest).drop_first() =~= blank.drop_first() + rest);
        trimmed_start_of(blank.drop_first(), rest);
    } else {
        assert(blank + rest =~= rest);
    }
}

proof fn trimmed_end_of(rest: Seq<char>, blank: Seq<char>)
    requires
        is_blank(blank),
        rest.len() > 0,
        !is_white_space(rest.last()),
    ensures
        trimmed_end(rest + blank) == rest,
    decreases blank.len(),
{
    if blank.len() > 0 {
        assert(is_white_space(blank[blank.len() - 1]));
        assert((rest + blank).drop_last() =~= rest + blank.drop_last());
        trimmed_end_of(rest, blank.drop_last());
    } else {
        assert(rest + blank =~= rest);
    }
}

/// A digit more makes a number ten times as large and adds the digit, as long as that fits; a
/// single digit is its own number; and a plus sign before a number without one changes nothing.
pub proof fn numbers_are_read_digit_by_digit(s: Seq<char>, value: u32, digit: u8)
    requires
        parsed_u32(s) == Some(value),
        digit < 10,
    ensures
        parsed_u32(s.push((48 + digit) as char)) == (if 10 * value + digit <= u32::MAX {
            Some((10 * value + digit) as u32)
        } else {
            None
        }),
        parsed_u32(seq![(48 + digit) as char]) == Some(digit as u32),
        s[0] != '+' ==> parsed_u32(seq!['+'] + s) == Some(value),
{
    let c = (48 + digit) as char;
    let d = number_digits(s);
    assert(number_digits(s.push(c)) =~= d.push(c));
    assert(d.push(c).drop_last() =~= d);
    assert(d.push(c).last() == c);
    assert forall|i: int| 0 <= i < d.push(c).len() implies is_digit(#[trigger] d.push(c)[i]) by {
        if i < d.len() {
            assert(d.push(c)[i] == d[i]);
        }
    }
    assert(digits_value(d.push(c)) == digits_value(d) * 10 + digit);
    let one = seq![c];
    assert(number_digits(one) == one);
    assert(one.drop_last() =~= Seq::<char>::empty());
    assert(digits_value(one.drop_last()) == 0);
    assert(digits_value(one) == digit);
    if s[0] != '+' {
        assert((seq!['+'] + s).drop_first() =~= s);
        assert(number_digits(seq!['+'] + s) == s);
    }
}

/// A text that holds anything but digits behind an optional plus sign is no number, and nor is one
/// without digits.
pub proof fn numbers_have_digits_alone(s: Seq<char>, i: int)
    ensures
        0 <= i < s.len() && !('0' <= s[i] && s[i] <= '9') && !(i == 0 && s[i] == '+')
            ==> parsed_u32(s) is None,
        s.len() == 0 ==> parsed_u32(s) is None,
        s.len() == 1 && s[0] == '+' ==> parsed_u32(s) is None,
{
    if 0 <= i < s.len() && !('0' <= s[i] && s[i] <= '9') && !(i == 0 && s[i] == '+') {
        let d = number_digits(s);
        if s[0] == '+' {
            assert(d[i - 1] == s[i]);
            assert(!is_digit(d[i - 1]));
        } else {
            assert(d[i] == s[i]);
            assert(!is_digit(d[i]));
        }
    }
}

} // verus!

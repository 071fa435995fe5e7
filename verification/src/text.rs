//! Reading and writing the small pieces of text that the operating system's process files hold.

use vstd::prelude::*;

verus! {

/// Whether a character has the Unicode property `White_Space`.
pub open spec fn is_white(c: char) -> bool {
    let code = c as u32;
    ||| 0x9 <= code <= 0xd
    ||| code == 0x20
    ||| code == 0x85
    ||| code == 0xa0
    ||| code == 0x1680
    ||| 0x2000 <= code <= 0x200a
    ||| code == 0x2028
    ||| code == 0x2029
    ||| code == 0x202f
    ||| code == 0x205f
    ||| code == 0x3000
}

/// The first place at or after `i` that is not white space.
pub open spec fn skip_white(s: Seq<char>, i: int) -> int
    decreases s.len() - i,
{
    if 0 <= i < s.len() && is_white(s[i]) {
        skip_white(s, i + 1)
    } else {
        i
    }
}

/// The first place at or after `i` that is white space, or the end.
pub open spec fn skip_word(s: Seq<char>, i: int) -> int
    decreases s.len() - i,
{
    if 0 <= i < s.len() && !is_white(s[i]) {
        skip_word(s, i + 1)
    } else {
        i
    }
}

/// The last place between `from` and `to` before which there is no white space.
pub open spec fn skip_back(s: Seq<char>, from: int, to: int) -> int
    decreases to - from,
{
    if from < to && is_white(s[to - 1]) {
        skip_back(s, from, to - 1)
    } else {
        to
    }
}

/// A text without the white space at its ends.
pub open spec fn trimmed(s: Seq<char>) -> Seq<char> {
    let from = skip_white(s, 0);
    s.subrange(from, skip_back(s, from, s.len() as int))
}

/// The second of the words that white space separates, where there are two.
pub open spec fn second_word(s: Seq<char>) -> Option<Seq<char>> {
    let from = skip_white(s, skip_word(s, skip_white(s, 0)));
    let to = skip_word(s, from);
    if from < to {
        Some(s.subrange(from, to))
    } else {
        None
    }
}

/// The end of the line that `i` is on.
pub open spec fn line_end(s: Seq<char>, i: int) -> int
    decreases s.len() - i,
{
    if 0 <= i < s.len() && s[i] != '\n' {
        line_end(s, i + 1)
    } else {
        i
    }
}

/// Whether `s` starts with `prefix`.
pub open spec fn starts_with(s: Seq<char>, prefix: Seq<char>) -> bool {
    s.len() >= prefix.len() && s.subrange(0, prefix.len() as int) == prefix
}

/// The first line, at or after the line start `i`, that starts with `prefix`.
pub open spec fn line_with_prefix(s: Seq<char>, prefix: Seq<char>, i: int) -> Option<Seq<char>>
    decreases s.len() - i,
{
    if !(0 <= i <= s.len()) {
        None
    } else {
        let end = line_end(s, i);
        if starts_with(s.subrange(i, end), prefix) {
            Some(s.subrange(i, end))
        } else if i <= end < s.len() {
            line_with_prefix(s, prefix, end + 1)
        } else {
            None
        }
    }
}

/// Whether a character is one of the ten decimal digits.
pub open spec fn is_digit(c: char) -> bool {
    '0' <= c <= '9'
}

/// The number that a sequence of decimal digits spells.
pub open spec fn digits_value(s: Seq<char>) -> int
    decreases s.len(),
{
    if s.len() == 0 {
        0
    } else {
        digits_value(s.drop_last()) * 10 + (s.last() as int - '0' as int)
    }
}

/// Whether every character is a decimal digit.
pub open spec fn all_digits(s: Seq<char>) -> bool {
    forall|i: int| 0 <= i < s.len() ==> is_digit(#[trigger] s[i])
}

/// The number that a text spells: decimal digits, at least one, after a `+` or nothing, that come
/// to no more than a `u32` holds.
pub open spec fn parsed_u32(s: Seq<char>) -> Option<u32> {
    let digits = if s.len() > 0 && s[0] == '+' {
        s.subrange(1, s.len() as int)
    } else {
        s
    };
    if digits.len() > 0 && all_digits(digits) && digits_value(digits) <= u32::MAX {
        Some(digits_value(digits) as u32)
    } else {
        None
    }
}

/// The decimal digit of a number below ten.
pub open spec fn digit(d: int) -> char {
    ('0' as int + d) as char
}

/// The decimal digits of a number, without leading zeros.
pub open spec fn decimal(n: nat) -> Seq<char>
    decreases n,
{
    if n < 10 {
        seq![digit(n as int)]
    } else {
        decimal(n / 10).push(digit((n % 10) as int))
    }
}

/// Decimal digits are digits, there is at least one, and they spell the number.
proof fn lemma_decimal(n: nat)
    ensures
        decimal(n).len() > 0,
        all_digits(decimal(n)),
        digits_value(decimal(n)) == n,
    decreases n,
{
    if n < 10 {
        assert(decimal(n).drop_last() =~= Seq::<char>::empty());
        assert(digits_value(Seq::<char>::empty()) == 0);
    } else {
        lemma_decimal(n / 10);
        assert(decimal(n).drop_last() =~= decimal(n / 10));
    }
}

/// Parsing the decimal digits of a number gives the number.
pub proof fn law_decimal_round_trip(n: u32)
    ensures
        parsed_u32(decimal(n as nat)) == Some(n),
{
    lemma_decimal(n as nat);
    assert(is_digit(decimal(n as nat)[0]));
}

/// The characters of a text.
pub(crate) fn chars_of(s: &str) -> (chars: Vec<char>)
    ensures
        chars@ == s@,
{
    let mut chars: Vec<char> = Vec::new();
    for c in it: s.chars()
        invariant
            chars@ == s@.take(it.index() as int),
            it.seq() == s@,
    {
        chars.push(c);
        assert(s@.take(it.index() + 1) =~= s@.take(it.index() as int).push(c));
    }
    assert(s@.take(s@.len() as int) =~= s@);
    chars
}

fn white(c: char) -> (w: bool)
    ensures
        w == is_white(c),
{
    let code: u32 = c as u32;
    (0x9 <= code && code <= 0xd) || code == 0x20 || code == 0x85 || code == 0xa0 || code == 0x1680
        || (0x2000 <= code && code <= 0x200a) || code == 0x2028 || code == 0x2029 || code == 0x202f
        || code == 0x205f || code == 0x3000
}

fn after_white(s: &[char], from: usize) -> (to: usize)
    requires
        from <= s@.len(),
    ensures
        to == skip_white(s@, from as int),
        from <= to <= s@.len(),
{
    let mut i: usize = from;
    while i < s.len() && white(s[i])
        invariant
            from <= i <= s@.len(),
            skip_white(s@, from as int) == skip_white(s@, i as int),
        decreases s@.len() - i,
    {
        i = i + 1;
    }
    i
}

fn after_word(s: &[char], from: usize) -> (to: usize)
    requires
        from <= s@.len(),
    ensures
        to == skip_word(s@, from as int),
        from <= to <= s@.len(),
{
    let mut i: usize = from;
    while i < s.len() && !white(s[i])
        invariant
            from <= i <= s@.len(),
            skip_word(s@, from as int) == skip_word(s@, i as int),
        decreases s@.len() - i,
    {
        i = i + 1;
    }
    i
}

/// Takes the white space off both ends of a text.
pub fn trim(s: &str) -> (out: String)
    ensures
        out@ == trimmed(s@),
{
    let chars = chars_of(s);
    let from: usize = after_white(&chars, 0);
    let mut to: usize = chars.len();
    while from < to && white(chars[to - 1])
        invariant
            from <= to <= chars@.len(),
            skip_back(chars@, from as int, chars@.len() as int) == skip_back(
                chars@,
                from as int,
                to as int,
            ),
        decreases to,
    {
        to = to - 1;
    }
    s.substring_char(from, to).to_owned()
}

/// Finds the second word of a text.
fn find_second_word(s: &[char]) -> (word: Option<Vec<char>>)
    ensures
        match word {
            Some(word) => second_word(s@) == Some(word@),
            None => second_word(s@) is None,
        },
{
    let from: usize = after_white(s, after_word(s, after_white(s, 0)));
    let to: usize = after_word(s, from);
    if from < to {
        Some(vstd::slice::slice_to_vec(vstd::slice::slice_subrange(s, from, to)))
    } else {
        None
    }
}

/// Finds the first line that starts with a prefix.
fn find_line_with_prefix(s: &[char], prefix: &[char]) -> (line: Option<Vec<char>>)
    ensures
        match line {
            Some(line) => line_with_prefix(s@, prefix@, 0) == Some(line@),
            None => line_with_prefix(s@, prefix@, 0) is None,
        },
{
    let len: usize = s.len();
    let mut start: usize = 0;
    loop
        invariant
            start <= len,
            len == s@.len(),
            line_with_prefix(s@, prefix@, 0) == line_with_prefix(s@, prefix@, start as int),
        decreases len - start,
    {
        let mut end: usize = start;
        while end < len && s[end] != '\n'
            invariant
                start <= end <= len,
                len == s@.len(),
                line_end(s@, start as int) == line_end(s@, end as int),
            decreases len - end,
        {
            end = end + 1;
        }
        let line = vstd::slice::slice_subrange(s, start, end);
        if has_prefix(line, prefix) {
            return Some(vstd::slice::slice_to_vec(line));
        }
        if end >= len {
            return None;
        }
        start = end + 1;
    }
}

fn has_prefix(s: &[char], prefix: &[char]) -> (has: bool)
    ensures
        has == starts_with(s@, prefix@),
{
    if s.len() < prefix.len() {
        return false;
    }
    let mut i: usize = 0;
    while i < prefix.len()
        invariant
            i <= prefix@.len(),
            prefix@.len() <= s@.len(),
            forall|j: int| 0 <= j < i ==> s@[j] == prefix@[j],
        decreases prefix@.len() - i,
    {
        if s[i] != prefix[i] {
            assert(s@.subrange(0, prefix@.len() as int)[i as int] != prefix@[i as int]);
            return false;
        }
        i = i + 1;
    }
    assert(s@.subrange(0, prefix@.len() as int) =~= prefix@);
    true
}

/// Parses a number.
pub(crate) fn parse_u32(s: &[char]) -> (n: Option<u32>)
    ensures
        n == parsed_u32(s@),
{
    let start: usize = if s.len() > 0 && s[0] == '+' {
        1
    } else {
        0
    };
    let ghost digits = s@.subrange(start as int, s@.len() as int);
    assert(start == 0 ==> digits =~= s@);
    if start >= s.len() {
        return None;
    }
    let mut value: u64 = 0;
    let mut overflow = false;
    let mut i: usize = start;
    while i < s.len()
        invariant
            start <= i <= s@.len(),
            start == (if s@[0] == '+' { 1int } else { 0 }),
            digits == s@.subrange(start as int, s@.len() as int),
            start == 0 ==> digits == s@,
            all_digits(digits.take(i - start)),
            !overflow ==> value == digits_value(digits.take(i - start)) && value <= u32::MAX,
            overflow ==> digits_value(digits.take(i - start)) > u32::MAX,
        decreases s@.len() - i,
    {
        let c = s[i];
        assert(digits[i - start] == c);
        if !('0' <= c && c <= '9') {
            assert(!is_digit(digits[i - start]));
            return None;
        }
        let ghost before = digits.take(i - start);
        let ghost after = digits.take(i + 1 - start);
        assert(after.drop_last() =~= before);
        assert(after.last() == c);
        assert forall|j: int| 0 <= j < after.len() implies is_digit(#[trigger] after[j]) by {
            assert(j < before.len() ==> after[j] == before[j]);
        }
        if !overflow {
            value = value * 10 + (c as u32 - '0' as u32) as u64;
            if value > 0xffff_ffff {
                overflow = true;
            }
        } else {
            assert(digits_value(after) > u32::MAX);
        }
        i = i + 1;
    }
    assert(digits.take(digits.len() as int) =~= digits);
    if overflow {
        None
    } else {
        Some(value as u32)
    }
}

/// Reads the user id off a process status text: the second word of the first line that starts with
/// `Uid:`.
pub open spec fn uid_of_status(status: Seq<char>) -> Option<u32> {
    match line_with_prefix(status, "Uid:"@, 0) {
        None => None,
        Some(line) => match second_word(line) {
            None => None,
            Some(word) => parsed_u32(word),
        },
    }
}

/// Reads the user id off a process status text.
pub fn parse_uid(status: &str) -> (uid: Option<u32>)
    ensures
        uid == uid_of_status(status@),
{
    match find_line_with_prefix(&chars_of(status), &chars_of("Uid:")) {
        None => None,
        Some(line) => match find_second_word(&line) {
            None => None,
            Some(word) => parse_u32(&word),
        },
    }
}

fn digit_text(d: u32) -> (text: &'static str)
    requires
        d < 10,
    ensures
        text@ == seq![digit(d as int)],
{
    proof {
        reveal_strlit("0");
        reveal_strlit("1");
        reveal_strlit("2");
        reveal_strlit("3");
        reveal_strlit("4");
        reveal_strlit("5");
        reveal_strlit("6");
        reveal_strlit("7");
        reveal_strlit("8");
        reveal_strlit("9");
    }
    let text: &'static str = match d {
        0 => "0",
        1 => "1",
        2 => "2",
        3 => "3",
        4 => "4",
        5 => "5",
        6 => "6",
        7 => "7",
        8 => "8",
        _ => "9",
    };
    assert(text@ =~= seq![digit(d as int)]);
    text
}

/// Writes a number in decimal digits.
pub fn decimal_text(n: u32) -> (text: String)
    ensures
        text@ == decimal(n as nat),
    decreases n,
{
    if n < 10 {
        digit_text(n).to_owned()
    } else {
        let mut text = decimal_text(n / 10);
        text.append(digit_text(n % 10));
        assert(text@ =~= decimal(n as nat));
        text
    }
}

/// Whether a text is white space throughout.
pub open spec fn all_white(s: Seq<char>) -> bool {
    forall|i: int| 0 <= i < s.len() ==> is_white(#[trigger] s[i])
}

/// Whether a text has characters and none of them is white space.
pub open spec fn is_word(s: Seq<char>) -> bool {
    s.len() > 0 && forall|i: int| 0 <= i < s.len() ==> !is_white(#[trigger] s[i])
}

/// Whether a text has no line break.
pub open spec fn is_line(s: Seq<char>) -> bool {
    forall|i: int| 0 <= i < s.len() ==> #[trigger] s[i] != '\n'
}

/// Of the ASCII characters the space and the five controls from tab to carriage return are white
/// space, and of the others the next line, the no-break space, the Ogham space, the spaces of
/// general punctuation from en quad to hair space, the line and the paragraph separator, the narrow
/// no-break, the mathematical and the ideographic space.
pub proof fn law_white_space(c: char)
    ensures
        c <= '\u{7f}' ==> (is_white(c) <==> c == ' ' || '\t' <= c <= '\r'),
        c > '\u{7f}' ==> (is_white(c) <==> c == '\u{85}' || c == '\u{a0}' || c == '\u{1680}'
            || '\u{2000}' <= c <= '\u{200a}' || c == '\u{2028}' || c == '\u{2029}' || c
            == '\u{202f}' || c == '\u{205f}' || c == '\u{3000}'),
{
}

proof fn lemma_skip_white(s: Seq<char>, i: int, j: int)
    requires
        0 <= i <= j <= s.len(),
        forall|k: int| i <= k < j ==> is_white(#[trigger] s[k]),
        j == s.len() || !is_white(s[j]),
    ensures
        skip_white(s, i) == j,
    decreases j - i,
{
    if i < j {
        lemma_skip_white(s, i + 1, j);
    }
}

proof fn lemma_skip_word(s: Seq<char>, i: int, j: int)
    requires
        0 <= i <= j <= s.len(),
        forall|k: int| i <= k < j ==> !is_white(#[trigger] s[k]),
        j == s.len() || is_white(s[j]),
    ensures
        skip_word(s, i) == j,
    decreases j - i,
{
    if i < j {
        lemma_skip_word(s, i + 1, j);
    }
}

proof fn lemma_skip_back(s: Seq<char>, from: int, j: int, to: int)
    requires
        0 <= from <= j <= to <= s.len(),
        forall|k: int| j <= k < to ==> is_white(#[trigger] s[k]),
        j == from || !is_white(s[j - 1]),
    ensures
        skip_back(s, from, to) == j,
    decreases to - j,
{
    if j < to {
        lemma_skip_back(s, from, j, to - 1);
    }
}

/// Trimming takes the white space off both ends and nothing else: whatever white space stands around
/// a text that neither starts nor ends with any, that text is left.
pub proof fn law_trimming_leaves_the_text(before: Seq<char>, core: Seq<char>, after: Seq<char>)
    requires
        all_white(before),
        all_white(after),
        core.len() > 0 ==> !is_white(core[0]) && !is_white(core.last()),
    ensures
        trimmed(before + core + after) == core,
{
    let s = before + core + after;
    let from = before.len() as int;
    let to = (before.len() + core.len()) as int;
    assert forall|k: int| 0 <= k < from implies is_white(#[trigger] s[k]) by {
        assert(s[k] == before[k]);
    }
    assert forall|k: int| to <= k < s.len() implies is_white(#[trigger] s[k]) by {
        assert(s[k] == after[k - to]);
    }
    if core.len() > 0 {
        assert(s[from] == core[0]);
        assert(s[to - 1] == core.last());
        lemma_skip_white(s, 0, from);
        lemma_skip_back(s, from, to, s.len() as int);
        assert(s.subrange(from, to) =~= core);
    } else {
        lemma_skip_white(s, 0, s.len() as int);
        assert(trimmed(s) =~= core);
    }
}

/// The second word of a text is the second of the runs that white space separates; a text of one
/// word has none.
pub proof fn law_second_word_is_the_second(
    before: Seq<char>,
    first: Seq<char>,
    gap: Seq<char>,
    second: Seq<char>,
    rest: Seq<char>,
)
    requires
        all_white(before),
        is_word(first),
        all_white(gap),
        gap.len() > 0,
        is_word(second),
        rest.len() == 0 || is_white(rest[0]),
    ensures
        second_word(before + first + gap + second + rest) == Some(second),
        second_word(before + first + gap) is None,
{
    let s = before + first + gap + second + rest;
    let a = before.len() as int;
    let b = a + first.len();
    let c = b + gap.len();
    let d = c + second.len();
    assert forall|k: int| 0 <= k < a implies is_white(#[trigger] s[k]) by {
        assert(s[k] == before[k]);
    }
    assert forall|k: int| a <= k < b implies !is_white(#[trigger] s[k]) by {
        assert(s[k] == first[k - a]);
    }
    assert forall|k: int| b <= k < c implies is_white(#[trigger] s[k]) by {
        assert(s[k] == gap[k - b]);
    }
    assert forall|k: int| c <= k < d implies !is_white(#[trigger] s[k]) by {
        assert(s[k] == second[k - c]);
    }
    if rest.len() > 0 {
        assert(s[d] == rest[0]);
    }
    lemma_skip_white(s, 0, a);
    lemma_skip_word(s, a, b);
    lemma_skip_white(s, b, c);
    lemma_skip_word(s, c, d);
    assert(s.subrange(c, d) =~= second);
    let t = before + first + gap;
    assert forall|k: int| 0 <= k < t.len() implies #[trigger] t[k] == s[k] by {}
    lemma_skip_white(t, 0, a);
    lemma_skip_word(t, a, b);
    lemma_skip_white(t, b, c);
}

proof fn lemma_line_end(s: Seq<char>, i: int, j: int)
    requires
        0 <= i <= j <= s.len(),
        forall|k: int| i <= k < j ==> #[trigger] s[k] != '\n',
        j == s.len() || s[j] == '\n',
    ensures
        line_end(s, i) == j,
    decreases j - i,
{
    if i < j {
        lemma_line_end(s, i + 1, j);
    }
}

proof fn lemma_line_end_is_in(s: Seq<char>, i: int)
    requires
        0 <= i <= s.len(),
    ensures
        i <= line_end(s, i) <= s.len(),
    decreases s.len() - i,
{
    if i < s.len() && s[i] != '\n' {
        lemma_line_end_is_in(s, i + 1);
    }
}

proof fn lemma_line_end_shifts(a: Seq<char>, b: Seq<char>, i: int)
    requires
        0 <= i <= b.len(),
    ensures
        line_end(a + b, a.len() + i) == a.len() + line_end(b, i),
    decreases b.len() - i,
{
    if i < b.len() {
        assert((a + b)[a.len() + i] == b[i]);
        if b[i] != '\n' {
            lemma_line_end_shifts(a, b, i + 1);
        }
    }
}

proof fn lemma_lines_shift(a: Seq<char>, b: Seq<char>, prefix: Seq<char>, i: int)
    requires
        0 <= i <= b.len(),
    ensures
        line_with_prefix(a + b, prefix, a.len() + i) == line_with_prefix(b, prefix, i),
    decreases b.len() - i,
{
    let end = line_end(b, i);
    lemma_line_end_is_in(b, i);
    lemma_line_end_shifts(a, b, i);
    assert((a + b).subrange(a.len() + i, a.len() + end) =~= b.subrange(i, end));
    if !starts_with(b.subrange(i, end), prefix) && end < b.len() {
        lemma_lines_shift(a, b, prefix, end + 1);
    }
}

/// Lines are looked at one after the other: the first line is found where it starts with the prefix,
/// and where it does not the search goes on after it.
pub proof fn law_lines_are_searched_in_order(line: Seq<char>, rest: Seq<char>, prefix: Seq<char>)
    requires
        is_line(line),
    ensures
        starts_with(line, prefix) ==> line_with_prefix(line, prefix, 0) == Some(line)
            && line_with_prefix(line + seq!['\n'] + rest, prefix, 0) == Some(line),
        !starts_with(line, prefix) ==> line_with_prefix(line, prefix, 0) is None
            && line_with_prefix(line + seq!['\n'] + rest, prefix, 0) == line_with_prefix(
            rest,
            prefix,
            0,
        ),
{
    let head = line + seq!['\n'];
    let s = head + rest;
    let end = line.len() as int;
    assert forall|k: int| 0 <= k < end implies #[trigger] s[k] != '\n' by {
        assert(s[k] == line[k]);
    }
    assert(s[end] == '\n');
    lemma_line_end(s, 0, end);
    lemma_line_end(line, 0, end);
    assert(s.subrange(0, end) =~= line);
    assert(line.subrange(0, end) =~= line);
    lemma_lines_shift(head, rest, prefix, 0);
}

/// A text starts with a prefix exactly where the prefix and something after it make up the text.
pub proof fn law_prefix_and_rest_make_the_text(prefix: Seq<char>, rest: Seq<char>, s: Seq<char>)
    ensures
        starts_with(prefix + rest, prefix),
        starts_with(s, prefix) ==> s == prefix + s.subrange(prefix.len() as int, s.len() as int),
{
    assert((prefix + rest).subrange(0, prefix.len() as int) =~= prefix);
    if starts_with(s, prefix) {
        assert(s =~= s.subrange(0, prefix.len() as int) + s.subrange(
            prefix.len() as int,
            s.len() as int,
        ));
    }
}

/// The user id of a status text is the first number of its `Uid:` line, whatever lines stand around
/// that one, as long as none before it is such a line.
pub proof fn law_uid_is_the_first_of_its_line(
    uid: u32,
    gap: Seq<char>,
    others: Seq<char>,
    earlier: Seq<char>,
    status: Seq<char>,
)
    requires
        gap.len() > 0,
        all_white(gap),
        is_line(gap),
        is_line(others),
        others.len() == 0 || is_white(others[0]),
        is_line(earlier),
        !starts_with(earlier, "Uid:"@),
    ensures
        uid_of_status("Uid:"@ + gap + decimal(uid as nat) + others + seq!['\n'] + status) == Some(
            uid,
        ),
        uid_of_status(earlier + seq!['\n'] + status) == uid_of_status(status),
{
    reveal_strlit("Uid:");
    let label = "Uid:"@;
    let digits = decimal(uid as nat);
    let line = label + gap + digits + others;
    lemma_decimal(uid as nat);
    assert forall|k: int| 0 <= k < digits.len() implies !is_white(#[trigger] digits[k]) && digits[k]
        != '\n' by {
        assert(is_digit(digits[k]));
    }
    assert(is_word(label));
    assert(is_word(digits));
    assert forall|k: int| 0 <= k < line.len() implies #[trigger] line[k] != '\n' by {
        if k < label.len() {
            assert(line[k] == label[k]);
        } else if k < label.len() + gap.len() {
            assert(line[k] == gap[k - label.len()]);
        } else if k < label.len() + gap.len() + digits.len() {
            assert(line[k] == digits[k - label.len() - gap.len()]);
        } else {
            assert(line[k] == others[k - label.len() - gap.len() - digits.len()]);
        }
    }
    assert(line.subrange(0, label.len() as int) =~= label);
    law_lines_are_searched_in_order(line, status, label);
    law_lines_are_searched_in_order(earlier, status, label);
    let none = Seq::<char>::empty();
    law_second_word_is_the_second(none, label, gap, digits, others);
    assert(none + label + gap + digits + others =~= line);
    law_decimal_round_trip(uid);
}

/// A number is read as its decimal digits say, with or without a plus sign, and not at all where it
/// is larger than a `u32` holds.
pub proof fn law_numbers_are_read_in_decimal(n: nat)
    ensures
        parsed_u32(decimal(n)) == (if n <= u32::MAX {
            Some(n as u32)
        } else {
            None
        }),
        parsed_u32(seq!['+'] + decimal(n)) == parsed_u32(decimal(n)),
{
    lemma_decimal(n);
    let digits = decimal(n);
    assert(is_digit(digits[0]));
    let signed = seq!['+'] + digits;
    assert(signed[0] == '+');
    assert(signed.subrange(1, signed.len() as int) =~= digits);
}

/// What has a character other than a digit, beyond a plus sign in front, is no number, and neither is
/// nothing at all.
pub proof fn law_only_digits_are_numbers(s: Seq<char>, i: int)
    ensures
        0 <= i < s.len() && !is_digit(s[i]) && !(i == 0 && s[i] == '+') ==> parsed_u32(s) is None,
        s.len() == 0 ==> parsed_u32(s) is None,
        s == seq!['+'] ==> parsed_u32(s) is None,
{
    if 0 <= i < s.len() && !is_digit(s[i]) && !(i == 0 && s[i] == '+') {
        if s[0] == '+' {
            assert(!is_digit(s.subrange(1, s.len() as int)[i - 1]));
        }
    }
}

/// Decimal digits have no needless zero in front, and one more digit is ten times the number and
/// that digit.
pub proof fn law_decimal_digits(n: nat, d: nat)
    requires
        d < 10,
    ensures
        n > 0 ==> decimal(n)[0] != '0',
        decimal(0) == seq!['0'],
        n > 0 ==> decimal(10 * n + d).drop_last() == decimal(n) && decimal(10 * n + d).last() as int
            == '0' as int + d,
    decreases n,
{
    if n >= 10 {
        law_decimal_digits(n / 10, d);
        lemma_decimal(n / 10);
        assert(decimal(n)[0] == decimal(n / 10)[0]);
    }
    if n > 0 {
        let more = 10 * n + d;
        assert(more / 10 == n && more % 10 == d) by (nonlinear_arith)
            requires
                more == 10 * n + d,
                d < 10,
        ;
        assert(decimal(more) == decimal(n).push(digit(d as int)));
        assert(decimal(more).drop_last() =~= decimal(n));
    }
}

} // verus!

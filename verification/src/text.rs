//! Texts: white space, decimal numerals, and texts that are not empty.

use vstd::prelude::*;

verus! {

/// The decimal digit for `d`, and `'0'` for any `d` past nine.
pub open spec fn digit(d: nat) -> char {
    if d == 1 {
        '1'
    } else if d == 2 {
        '2'
    } else if d == 3 {
        '3'
    } else if d == 4 {
        '4'
    } else if d == 5 {
        '5'
    } else if d == 6 {
        '6'
    } else if d == 7 {
        '7'
    } else if d == 8 {
        '8'
    } else if d == 9 {
        '9'
    } else {
        '0'
    }
}

/// Whether `c` is one of the ten decimal digits.
pub open spec fn is_digit(c: char) -> bool {
    '0' <= c <= '9'
}

/// The decimal numeral of `n`, with leading zeros up to `width` characters.
/// A numeral longer than `width` is kept whole.
pub open spec fn padded(n: nat, width: nat) -> Seq<char>
    decreases n, width,
{
    if n < 10 && width <= 1 {
        seq![digit(n)]
    } else {
        padded(n / 10, if width == 0 { 0 } else { (width - 1) as nat }).push(digit(n % 10))
    }
}

/// The decimal numeral of `n` without leading zeros.
pub open spec fn decimal(n: nat) -> Seq<char> {
    padded(n, 1)
}

/// Different digits are written differently.
pub proof fn lemma_digit_distinct(a: nat, b: nat)
    requires
        a < 10,
        b < 10,
        digit(a) == digit(b),
    ensures
        a == b,
{
}

/// A padded numeral consists of digits, at least `width` of them and at
/// least one.
pub proof fn lemma_padded_digits(n: nat, width: nat)
    ensures
        padded(n, width).len() >= width,
        padded(n, width).len() >= 1,
        forall|i: int| 0 <= i < padded(n, width).len() ==> is_digit(#[trigger] padded(n, width)[i]),
    decreases n, width,
{
    if n < 10 && width <= 1 {
    } else {
        lemma_padded_digits(n / 10, if width == 0 { 0 } else { (width - 1) as nat });
    }
}

/// A number below a hundred, padded to two places, is its two digits.
pub proof fn lemma_padded_two(n: nat)
    requires
        n < 100,
    ensures
        padded(n, 2) == seq![digit(n / 10), digit(n % 10)],
{
    reveal_with_fuel(padded, 2);
    assert(padded(n, 2) =~= seq![digit(n / 10), digit(n % 10)]);
}

/// A number below ten thousand, padded to four places, is its four digits.
pub proof fn lemma_padded_four(n: nat)
    requires
        n < 10000,
    ensures
        padded(n, 4) == seq![
            digit(n / 1000),
            digit(n / 100 % 10),
            digit(n / 10 % 10),
            digit(n % 10),
        ],
{
    reveal_with_fuel(padded, 4);
    assert(n / 10 / 10 == n / 100);
    assert(n / 10 / 10 / 10 == n / 1000);
    assert(padded(n, 4) =~= seq![
        digit(n / 1000),
        digit(n / 100 % 10),
        digit(n / 10 % 10),
        digit(n % 10),
    ]);
}

/// Different numbers have different numerals when padded to one width.
pub proof fn lemma_padded_distinct(a: nat, b: nat, width: nat)
    requires
        padded(a, width) == padded(b, width),
    ensures
        a == b,
    decreases a, width,
{
    let rest: nat = if width == 0 { 0 } else { (width - 1) as nat };
    if a < 10 && width <= 1 {
        if b < 10 {
            assert(padded(a, width)[0] == digit(a));
            assert(padded(b, width)[0] == digit(b));
            lemma_digit_distinct(a, b);
        } else {
            lemma_padded_digits(b / 10, rest);
            assert(padded(b, width).len() >= 2);
        }
    } else if b < 10 && width <= 1 {
        lemma_padded_digits(a / 10, rest);
        assert(padded(a, width).len() >= 2);
    } else {
        let front_a = padded(a / 10, rest);
        let front_b = padded(b / 10, rest);
        assert(front_a.push(digit(a % 10)).drop_last() =~= front_a);
        assert(front_b.push(digit(b % 10)).drop_last() =~= front_b);
        assert(front_a.push(digit(a % 10)).last() == digit(a % 10));
        assert(front_b.push(digit(b % 10)).last() == digit(b % 10));
        lemma_padded_distinct(a / 10, b / 10, rest);
        lemma_digit_distinct(a % 10, b % 10);
    }
}

/// The one-character text of the digit `d`.
fn digit_text(d: u64) -> (text: &'static str)
    requires
        d < 10,
    ensures
        text@ == seq![digit(d as nat)],
{
    proof {
        reveal_strlit("0");
        reveal_strlit("1");
        reveal_strlit("2");
        reveal_strlit("3");
        reveal_strlit("4");
        reveal_strlit("5");
        reveal_strlit("6");
        reveal_strlit("7");
        reveal_strlit("8");
        reveal_strlit("9");
    }
    let text = if d == 0 {
        "0"
    } else if d == 1 {
        "1"
    } else if d == 2 {
        "2"
    } else if d == 3 {
        "3"
    } else if d == 4 {
        "4"
    } else if d == 5 {
        "5"
    } else if d == 6 {
        "6"
    } else if d == 7 {
        "7"
    } else if d == 8 {
        "8"
    } else {
        "9"
    };
    assert(text@ =~= seq![digit(d as nat)]);
    text
}

/// Writes `n` in decimal, with leading zeros up to `width` characters.
pub fn padded_text(n: u64, width: u8) -> (text: String)
    ensures
        text@ == padded(n as nat, width as nat),
    decreases n, width,
{
    if n < 10 && width <= 1 {
        String::from_str(digit_text(n))
    } else {
        let rest_width: u8 = if width == 0 { 0 } else { width - 1 };
        let mut text = padded_text(n / 10, rest_width);
        text.append(digit_text(n % 10));
        assert(text@ =~= padded(n as nat, width as nat));
        text
    }
}

/// Writes `n` in decimal.
pub fn decimal_text(n: u64) -> (text: String)
    ensures
        text@ == decimal(n as nat),
{
    padded_text(n, 1)
}

/// Whether `c` is white space: the characters that carry the Unicode
/// property `White_Space`.
pub open spec fn is_space(c: char) -> bool {
    let n = c as u32;
    ||| 0x09 <= n <= 0x0D
    ||| n == 0x20
    ||| n == 0x85
    ||| n == 0xA0
    ||| n == 0x1680
    ||| 0x2000 <= n <= 0x200A
    ||| n == 0x2028
    ||| n == 0x2029
    ||| n == 0x202F
    ||| n == 0x205F
    ||| n == 0x3000
}

/// `s` without the white space it begins with.
pub open spec fn trim_start(s: Seq<char>) -> Seq<char>
    decreases s.len(),
{
    if s.len() > 0 && is_space(s.first()) {
        trim_start(s.drop_first())
    } else {
        s
    }
}

/// `s` without the white space it ends with.
pub open spec fn trim_end(s: Seq<char>) -> Seq<char>
    decreases s.len(),
{
    if s.len() > 0 && is_space(s.last()) {
        trim_end(s.drop_last())
    } else {
        s
    }
}

/// `s` without the white space at either end.
pub open spec fn trimmed(s: Seq<char>) -> Seq<char> {
    trim_end(trim_start(s))
}

/// Whether `c` is white space.
pub fn is_space_char(c: char) -> (space: bool)
    ensures
        space == is_space(c),
{
    let n = c as u32;
    (0x09 <= n && n <= 0x0D) || n == 0x20 || n == 0x85 || n == 0xA0 || n == 0x1680 || (0x2000 <= n
        && n <= 0x200A) || n == 0x2028 || n == 0x2029 || n == 0x202F || n == 0x205F || n == 0x3000
}

/// Everything before the first character of `s` that is no white space
/// goes when `s` is trimmed at its start.
pub proof fn lemma_trim_start_at(s: Seq<char>, first: int)
    requires
        0 <= first <= s.len(),
        forall|j: int| 0 <= j < first ==> is_space(#[trigger] s[j]),
        first < s.len() ==> !is_space(s[first]),
    ensures
        trim_start(s) == s.subrange(first, s.len() as int),
    decreases s.len(),
{
    if first == 0 {
        assert(s.subrange(0, s.len() as int) =~= s);
    } else {
        let rest = s.drop_first();
        assert forall|j: int| 0 <= j < first - 1 implies is_space(#[trigger] rest[j]) by {
            assert(rest[j] == s[j + 1]);
        }
        lemma_trim_start_at(rest, first - 1);
        assert(rest.subrange(first - 1, rest.len() as int) =~= s.subrange(first, s.len() as int));
    }
}

/// Everything after the last character of `s` that is no white space goes
/// when `s` is trimmed at its end.
pub proof fn lemma_trim_end_at(s: Seq<char>, end: int)
    requires
        0 <= end <= s.len(),
        forall|j: int| end <= j < s.len() ==> is_space(#[trigger] s[j]),
        0 < end ==> !is_space(s[end - 1]),
    ensures
        trim_end(s) == s.subrange(0, end),
    decreases s.len(),
{
    if end == s.len() {
        assert(s.subrange(0, end) =~= s);
    } else {
        let rest = s.drop_last();
        assert forall|j: int| end <= j < rest.len() implies is_space(#[trigger] rest[j]) by {
            assert(rest[j] == s[j]);
        }
        lemma_trim_end_at(rest, end);
        assert(rest.subrange(0, end) =~= s.subrange(0, end));
    }
}

/// A text trims to nothing exactly when every character of it is white
/// space.
pub proof fn lemma_trimmed_is_empty(s: Seq<char>)
    ensures
        trimmed(s).len() == 0 <==> forall|j: int| 0 <= j < s.len() ==> is_space(#[trigger] s[j]),
    decreases s.len(),
{
    if s.len() == 0 {
    } else if is_space(s.first()) {
        let rest = s.drop_first();
        lemma_trimmed_is_empty(rest);
        if forall|j: int| 0 <= j < rest.len() ==> is_space(#[trigger] rest[j]) {
            assert forall|j: int| 0 <= j < s.len() implies is_space(#[trigger] s[j]) by {
                if j > 0 {
                    assert(rest[j - 1] == s[j]);
                }
            }
        }
        if forall|j: int| 0 <= j < s.len() ==> is_space(#[trigger] s[j]) {
            assert forall|j: int| 0 <= j < rest.len() implies is_space(#[trigger] rest[j]) by {
                assert(rest[j] == s[j + 1]);
            }
        }
    } else {
        lemma_trim_end_keeps_first(s);
    }
}

/// Trimming the end of a text that begins with a character that is no
/// white space leaves that character in place.
proof fn lemma_trim_end_keeps_first(s: Seq<char>)
    requires
        s.len() > 0,
        !is_space(s.first()),
    ensures
        trim_end(s).len() > 0,
    decreases s.len(),
{
    if is_space(s.last()) {
        lemma_trim_end_keeps_first(s.drop_last());
    }
}

/// Copies `s` without the white space at either end.
pub fn trim(s: &str) -> (text: String)
    ensures
        text@ == trimmed(s@),
{
    let n = s.unicode_len();
    let mut start: usize = 0;
    let mut end: usize = 0;
    let mut seen = false;
    let mut i: usize = 0;
    for c in it: s.chars()
        invariant
            it.seq() == s@,
            i == it.index(),
            n == s@.len(),
            start <= end <= i,
            forall|j: int| 0 <= j < start ==> is_space(#[trigger] s@[j]),
            forall|j: int| end <= j < i ==> is_space(#[trigger] s@[j]),
            seen ==> start < end && !is_space(s@[start as int]) && !is_space(s@[end - 1]),
            !seen ==> start == end,
    {
        if !is_space_char(c) {
            if !seen {
                start = i;
                seen = true;
            }
            end = i + 1;
        }
        i += 1;
    }
    proof {
        let tail = s@.subrange(start as int, n as int);
        if seen {
            lemma_trim_start_at(s@, start as int);
            assert forall|j: int| end - start <= j < tail.len() implies is_space(
                #[trigger] tail[j],
            ) by {
                assert(tail[j] == s@[j + start]);
            }
            assert(tail[end - start - 1] == s@[end - 1]);
            lemma_trim_end_at(tail, end - start);
            assert(tail.subrange(0, end - start) =~= s@.subrange(start as int, end as int));
        } else {
            lemma_trimmed_is_empty(s@);
            assert(s@.subrange(start as int, end as int).len() == 0);
            assert(trimmed(s@) =~= s@.subrange(start as int, end as int));
        }
    }
    String::from_str(s.substring_char(start, end))
}

/// Two texts that are equal and were joined from fronts of one length
/// were joined from equal parts.
pub proof fn lemma_joined_parts(
    front_a: Seq<char>,
    back_a: Seq<char>,
    front_b: Seq<char>,
    back_b: Seq<char>,
)
    requires
        front_a + back_a == front_b + back_b,
        front_a.len() == front_b.len(),
    ensures
        front_a == front_b,
        back_a == back_b,
{
    let whole = front_a + back_a;
    let cut = front_a.len() as int;
    assert(whole.subrange(0, cut) =~= front_a);
    assert((front_b + back_b).subrange(0, cut) =~= front_b);
    assert(whole.subrange(cut, whole.len() as int) =~= back_a);
    assert((front_b + back_b).subrange(cut, whole.len() as int) =~= back_b);
}

/// Whether `needle` stands somewhere in `text`, character for character.
pub open spec fn occurs_in(needle: Seq<char>, text: Seq<char>) -> bool {
    exists|at: int|
        0 <= at && at + needle.len() <= text.len() && #[trigger] text.subrange(
            at,
            at + needle.len(),
        ) == needle
}

/// A text of at least one character.
#[derive(Debug, PartialEq, Eq)]
pub struct NonEmpty {
    text: String,
}

impl View for NonEmpty {
    type V = Seq<char>;

    closed spec fn view(&self) -> Seq<char> {
        self.text@
    }
}

impl NonEmpty {
    #[verifier::type_invariant]
    spec fn has_text(self) -> bool {
        self.text@.len() > 0
    }

    /// Accepts `text` unless it is empty.
    pub fn new(text: String) -> (made: Option<NonEmpty>)
        ensures
            made is Some <==> text@.len() > 0,
            made is Some ==> made->0@ == text@,
    {
        if text.as_str().is_empty() {
            None
        } else {
            Some(NonEmpty { text })
        }
    }

    /// The text.
    pub fn as_str(&self) -> (text: &str)
        ensures
            text@ == self@,
            text@.len() > 0,
    {
        proof {
            use_type_invariant(self);
        }
        self.text.as_str()
    }

    /// The text, given up.
    pub fn into_string(self) -> (text: String)
        ensures
            text@ == self@,
            text@.len() > 0,
    {
        proof {
            use_type_invariant(&self);
        }
        self.text
    }
}

/// The text of an optional string.
pub open spec fn text_of(text: Option<String>) -> Option<Seq<char>> {
    match text {
        Some(text) => Some(text@),
        None => None,
    }
}

/// The text of an optional non-empty string.
pub open spec fn name_of(text: Option<NonEmpty>) -> Option<Seq<char>> {
    match text {
        Some(text) => Some(text@),
        None => None,
    }
}

} // verus!

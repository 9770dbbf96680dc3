//! Text helpers: comparing, splitting and numbers in decimal.

use vstd::prelude::*;

verus! {

/// The character of a decimal digit.
pub open spec fn digit_char(d: nat) -> char {
    (('0' as u32) + d) as char
}

/// The decimal notation of `n`, without leading zeros.
pub open spec fn decimal(n: nat) -> Seq<char>
    decreases n,
{
    if n < 10 {
        seq![digit_char(n)]
    } else {
        decimal(n / 10).push(digit_char(n % 10))
    }
}

/// Whether `c` is one of the ten decimal digits.
pub open spec fn is_digit(c: char) -> bool {
    '0' <= c <= '9'
}

/// The number that a row of decimal digits stands for.
pub open spec fn digits_value(s: Seq<char>) -> nat
    decreases s.len(),
{
    if s.len() == 0 {
        0
    } else {
        10 * digits_value(s.drop_last()) + (s.last() as nat - '0' as nat) as nat
    }
}

/// The digits of a written number: all of `s`, but for one leading `+`.
pub open spec fn unsigned_digits(s: Seq<char>) -> Seq<char> {
    if s.len() > 0 && s[0] == '+' {
        s.drop_first()
    } else {
        s
    }
}

/// The number that `s` stands for, if `s` is a written number: at least one
/// digit and nothing but digits, after an optional `+`.
pub open spec fn unsigned_value(s: Seq<char>) -> Option<nat> {
    let digits = unsigned_digits(s);
    if digits.len() > 0 && (forall|i: int|
        0 <= i < digits.len() ==> is_digit(#[trigger] digits[i])) {
        Some(digits_value(digits))
    } else {
        None
    }
}

/// Whether two strings hold the same characters.
pub fn same_text(a: &str, b: &str) -> (same: bool)
    ensures
        same == (a@ == b@),
{
    let mut rest_a = a.chars();
    let mut rest_b = b.chars();
    let ghost mut done: int = 0;
    proof {
        assert(a@.skip(0) =~= a@);
        assert(b@.skip(0) =~= b@);
    }
    loop
        invariant
            0 <= done <= a@.len(),
            done <= b@.len(),
            vstd::std_specs::iter::IteratorSpec::remaining(&rest_a) == a@.skip(done),
            vstd::std_specs::iter::IteratorSpec::remaining(&rest_b) == b@.skip(done),
            a@.take(done) == b@.take(done),
        decreases a@.len() - done,
    {
        match (rest_a.next(), rest_b.next()) {
            (Some(x), Some(y)) => {
                if x != y {
                    assert(a@[done] == x && b@[done] == y);
                    return false;
                }
                proof {
                    assert(a@.take(done + 1) =~= a@.take(done).push(x));
                    assert(b@.take(done + 1) =~= b@.take(done).push(y));
                    assert(a@.skip(done + 1) =~= a@.skip(done).drop_first());
                    assert(b@.skip(done + 1) =~= b@.skip(done).drop_first());
                    done = done + 1;
                }
            },
            (None, None) => {
                assert(a@ =~= a@.take(done));
                assert(b@ =~= b@.take(done));
                return true;
            },
            _ => {
                return false;
            },
        }
    }
}

/// Where `c` first occurs in `s`, counted in characters.
pub fn find_char(s: &str, c: char) -> (at: Option<usize>)
    ensures
        match at {
            Some(i) => i < s@.len() && s@[i as int] == c && !s@.take(i as int).contains(c),
            None => !s@.contains(c),
        },
{
    let n: usize = s.unicode_len();
    let mut rest = s.chars();
    let mut i: usize = 0;
    proof {
        assert(s@.skip(0) =~= s@);
    }
    while i < n
        invariant
            n == s@.len(),
            i <= n,
            vstd::std_specs::iter::IteratorSpec::remaining(&rest) == s@.skip(i as int),
            forall|j: int| 0 <= j < i ==> s@[j] != c,
        decreases n - i,
    {
        if let Some(x) = rest.next() {
            if x == c {
                return Some(i);
            }
        }
        proof {
            assert(s@.skip(i + 1) =~= s@.skip(i as int).drop_first());
        }
        i = i + 1;
    }
    None
}

/// Whether `stripped` is `line` without the `ending` that it has, or nothing if
/// it has no such ending.
pub open spec fn is_stripped(
    line: Seq<char>,
    ending: Seq<char>,
    stripped: Option<Seq<char>>,
) -> bool {
    match stripped {
        Some(text) => line == text + ending,
        None => forall|text: Seq<char>| line != #[trigger] (text + ending),
    }
}

/// A line that was put together from a text and the ending is stripped to that
/// text; only a line with the ending is stripped at all, and what is left with
/// the ending behind it is the line again.
pub proof fn law_stripped(
    line: Seq<char>,
    ending: Seq<char>,
    text: Seq<char>,
    stripped: Option<Seq<char>>,
)
    requires
        is_stripped(line, ending, stripped),
    ensures
        line == text + ending ==> stripped == Some(text),
        stripped is Some ==> line == stripped->Some_0 + ending,
{
    if line == text + ending {
        assert(stripped is Some);
        law_stripping_undoes_appending(text, ending, stripped->Some_0);
    }
}

/// Takes `ending` off the end of `line`. Gives nothing where `line` does not
/// end so.
pub fn strip_ending(line: &str, ending: &str) -> (stripped: Option<String>)
    ensures
        match stripped {
            Some(text) => line@ == text@ + ending@,
            None => forall|text: Seq<char>| line@ != #[trigger] (text + ending@),
        },
        is_stripped(
            line@,
            ending@,
            match stripped {
                Some(text) => Some(text@),
                None => None,
            },
        ),
{
    let n: usize = line.unicode_len();
    let m: usize = ending.unicode_len();
    if n < m {
        return None;
    }
    let tail = line.substring_char(n - m, n);
    if same_text(tail, ending) {
        let text = line.substring_char(0, n - m).to_string();
        assert(line@ =~= text@ + ending@);
        Some(text)
    } else {
        proof {
            assert forall|text: Seq<char>| line@ != #[trigger] (text + ending@) by {
                if line@ == text + ending@ {
                    assert(tail@ =~= ending@);
                }
            }
        }
        None
    }
}

/// What `strip_ending` leaves is what the ending was put behind.
pub proof fn law_stripping_undoes_appending(
    text: Seq<char>,
    ending: Seq<char>,
    stripped: Seq<char>,
)
    requires
        text + ending == stripped + ending,
    ensures
        stripped == text,
{
    let line = text + ending;
    assert(line.len() == text.len() + ending.len());
    assert((stripped + ending).len() == stripped.len() + ending.len());
    assert(text =~= line.take(text.len() as int));
    assert(stripped =~= line.take(text.len() as int));
}

/// The string of one decimal digit.
fn digit_text(d: usize) -> (s: &'static str)
    requires
        d < 10,
    ensures
        s@ == seq![digit_char(d as nat)],
{
    proof {
        reveal_strlit("0");
        reveal_strlit("1");
        reveal_strlit("2");
        reveal_strlit("3");
        reveal_strlit("4");
        reveal_strlit("5");
        reveal_strlit("6");
        reveal_strlit("7");
        reveal_strlit("8");
        reveal_strlit("9");
    }
    let s = match d {
        0 => "0",
        1 => "1",
        2 => "2",
        3 => "3",
        4 => "4",
        5 => "5",
        6 => "6",
        7 => "7",
        8 => "8",
        _ => "9",
    };
    assert(s@ =~= seq![digit_char(d as nat)]);
    s
}

/// Writes `n` in decimal.
pub fn decimal_text(n: usize) -> (s: String)
    ensures
        s@ == decimal(n as nat),
    decreases n,
{
    if n < 10 {
        digit_text(n).to_string()
    } else {
        let mut s = decimal_text(n / 10);
        s.append(digit_text(n % 10));
        assert(s@ =~= decimal(n as nat));
        s
    }
}

/// Reads a number of at most 16 bits: an optional `+`, then decimal digits
/// only.
pub fn parse_u16(s: &str) -> (number: Option<u16>)
    ensures
        match number {
            Some(n) => unsigned_value(s@) == Some(n as nat),
            None => match unsigned_value(s@) {
                Some(value) => value > u16::MAX,
                None => true,
            },
        },
{
    let n: usize = s.unicode_len();
    let mut rest = s.chars();
    let ghost digits = unsigned_digits(s@);
    let mut i: usize = 0;
    // the value so far, which stays at one past the largest number once it is there
    let mut value: u32 = 0;
    proof {
        assert(s@.skip(0) =~= s@);
    }
    if n > 0 && s.get_char(0) == '+' {
        let _ = rest.next();
        i = 1;
        assert(s@.skip(1) =~= s@.drop_first());
    }
    if i == n {
        return None;
    }
    let ghost start: int = i as int;
    assert(digits =~= s@.skip(start));
    assert(digits.take(0) =~= Seq::<char>::empty());
    while i < n
        invariant
            n == s@.len(),
            0 <= start <= i <= n,
            digits == s@.skip(start),
            digits == unsigned_digits(s@),
            vstd::std_specs::iter::IteratorSpec::remaining(&rest) == s@.skip(i as int),
            forall|j: int| 0 <= j < i - start ==> is_digit(#[trigger] digits[j]),
            value <= 65536,
            value == (if digits_value(digits.take(i - start)) < 65536 {
                digits_value(digits.take(i - start)) as int
            } else {
                65536
            }),
        decreases n - i,
    {
        let ghost k = i - start;
        if let Some(c) = rest.next() {
            assert(c == digits[k]);
            if c < '0' || c > '9' {
                return None;
            }
            let d: u32 = c as u32 - '0' as u32;
            value = value * 10 + d;
            if value > 65536 {
                value = 65536;
            }
        }
        proof {
            assert(digits.take(k + 1).drop_last() =~= digits.take(k));
            assert(s@.skip(i + 1) =~= s@.skip(i as int).drop_first());
        }
        i = i + 1;
    }
    assert(digits.take(n - start) =~= digits);
    if value <= 65535 {
        Some(value as u16)
    } else {
        None
    }
}

/// Different numbers are written differently.
pub proof fn law_decimal_injective(a: nat, b: nat)
    ensures
        decimal(a) == decimal(b) <==> a == b,
    decreases a,
{
    if decimal(a) == decimal(b) {
        if a < 10 || b < 10 {
            lemma_decimal_length(a);
            lemma_decimal_length(b);
            assert(decimal(a)[0] == decimal(b)[0]);
        } else {
            assert(decimal(a).drop_last() =~= decimal(a / 10));
            assert(decimal(b).drop_last() =~= decimal(b / 10));
            law_decimal_injective(a / 10, b / 10);
            assert(decimal(a).last() == decimal(b).last());
        }
    }
}

/// One digit exactly below ten.
proof fn lemma_decimal_length(n: nat)
    ensures
        decimal(n).len() >= 1,
        n >= 10 ==> decimal(n).len() >= 2,
    decreases n,
{
    if n >= 10 {
        lemma_decimal_length(n / 10);
    }
}

/// A number that is written in decimal is read back as itself.
pub proof fn law_decimal_read_back(n: nat)
    ensures
        unsigned_value(decimal(n)) == Some(n),
{
    lemma_decimal_digits(n);
    lemma_decimal_length(n);
    assert(is_digit(decimal(n)[0]));
}

/// The decimal notation holds digits only, and their value is the number.
proof fn lemma_decimal_digits(n: nat)
    ensures
        forall|i: int| 0 <= i < decimal(n).len() ==> is_digit(#[trigger] decimal(n)[i]),
        digits_value(decimal(n)) == n,
    decreases n,
{
    if n < 10 {
        assert(decimal(n).drop_last() =~= Seq::<char>::empty());
        assert(digits_value(Seq::<char>::empty()) == 0);
    } else {
        lemma_decimal_digits(n / 10);
        assert(decimal(n).drop_last() =~= decimal(n / 10));
    }
}

/// The ten digits, each as it is written.
pub proof fn law_digits()
    ensures
        decimal(0) == seq!['0'],
        decimal(1) == seq!['1'],
        decimal(2) == seq!['2'],
        decimal(3) == seq!['3'],
        decimal(4) == seq!['4'],
        decimal(5) == seq!['5'],
        decimal(6) == seq!['6'],
        decimal(7) == seq!['7'],
        decimal(8) == seq!['8'],
        decimal(9) == seq!['9'],
{
}

/// Ten times a number and one digit more is written as the number with that
/// digit behind it.
pub proof fn law_one_digit_more(n: nat, d: nat)
    requires
        n > 0,
        d < 10,
    ensures
        decimal(10 * n + d) == decimal(n) + decimal(d),
{
    assert((10 * n + d) / 10 == n);
    assert((10 * n + d) % 10 == d);
    assert(decimal(10 * n + d) =~= decimal(n) + decimal(d));
}

/// A written number holds digits only, and no zero in front.
pub proof fn law_decimal_form(n: nat, i: int)
    requires
        0 <= i < decimal(n).len(),
    ensures
        '0' <= decimal(n)[i] <= '9',
        n > 0 ==> decimal(n)[0] != '0',
    decreases n,
{
    lemma_decimal_digits(n);
    assert(is_digit(decimal(n)[i]));
    if n >= 10 {
        lemma_decimal_length(n / 10);
        law_decimal_form(n / 10, 0);
    }
}

/// The value of a row of digits: nothing is zero, and each further digit counts
/// once after all before it have been multiplied by ten.
pub proof fn law_digits_value(s: Seq<char>, c: char)
    requires
        '0' <= c <= '9',
    ensures
        digits_value(Seq::empty()) == 0,
        digits_value(s.push(c)) == 10 * digits_value(s) + (c as int - '0' as int),
{
    assert(s.push(c).drop_last() =~= s);
}

/// A row of digits is a number, with or without a plus sign before it.
pub proof fn law_row_of_digits_is_number(s: Seq<char>)
    requires
        s.len() > 0,
        forall|i: int| 0 <= i < s.len() ==> '0' <= #[trigger] s[i] <= '9',
    ensures
        unsigned_value(s) == Some(digits_value(s)),
        unsigned_value(seq!['+'] + s) == Some(digits_value(s)),
{
    assert(s[0] != '+');
    assert((seq!['+'] + s).drop_first() =~= s);
    assert forall|i: int| 0 <= i < s.len() implies is_digit(#[trigger] s[i]) by {}
}

/// Nothing else is a number: not the empty text, not a plus sign alone, and no
/// text with a character that is neither a digit nor a plus sign in front.
pub proof fn law_nothing_else_is_number(s: Seq<char>, i: int)
    requires
        s.len() == 0 || s == seq!['+'] || (0 <= i < s.len() && !('0' <= s[i] <= '9') && !(i == 0
            && s[0] == '+')),
    ensures
        unsigned_value(s) is None,
{
    let digits = unsigned_digits(s);
    if s.len() > 0 && s != seq!['+'] {
        if s[0] == '+' {
            assert(digits[i - 1] == s[i]);
            assert(!is_digit(digits[i - 1]));
        } else {
            assert(digits[i] == s[i]);
            assert(!is_digit(digits[i]));
        }
    }
}

} // verus!

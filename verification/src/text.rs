//! Small text functions that the report and the enrichment share.

use vstd::prelude::*;
use vstd::std_specs::iter::IteratorSpec;
use vstd::string::*;

verus! {

/// The character that separates the date from the time in an ISO-8601
/// timestamp.
pub open spec fn is_time_separator(c: char) -> bool {
    c == 'T'
}

/// How many characters of `s` come before its first time separator: all of
/// them when it has none.
pub open spec fn date_len(s: Seq<char>) -> nat
    decreases s.len(),
{
    if s.len() == 0 || is_time_separator(s[0]) {
        0
    } else {
        1 + date_len(s.drop_first())
    }
}

/// The part of a timestamp that comes before the time separator.
pub open spec fn date_part(s: Seq<char>) -> Seq<char> {
    s.take(date_len(s) as int)
}

/// `date_len` is the position of the first separator, bounded by the length.
pub proof fn lemma_date_len(s: Seq<char>)
    ensures
        date_len(s) <= s.len(),
        forall|i: int| 0 <= i < date_len(s) ==> !is_time_separator(#[trigger] s[i]),
        date_len(s) < s.len() ==> is_time_separator(s[date_len(s) as int]),
    decreases s.len(),
{
    if s.len() == 0 || is_time_separator(s[0]) {
    } else {
        let rest = s.drop_first();
        lemma_date_len(rest);
        assert forall|i: int| 0 <= i < date_len(s) implies !is_time_separator(#[trigger] s[i]) by {
            if i > 0 {
                assert(s[i] == rest[i - 1]);
            }
        }
    }
}

/// A prefix of `s` that holds no separator and ends where `s` ends or where
/// its first separator stands has exactly `date_len(s)` characters.
pub proof fn lemma_date_len_unique(s: Seq<char>, n: int)
    requires
        0 <= n <= s.len(),
        forall|i: int| 0 <= i < n ==> !is_time_separator(#[trigger] s[i]),
        n < s.len() ==> is_time_separator(s[n]),
    ensures
        date_len(s) == n,
{
    lemma_date_len(s);
}

/// Cuts a timestamp down to its date: what stands before the first `T`.
/// A text without a `T` comes back whole.
pub fn truncate_to_date(timestamp: &str) -> (date: String)
    ensures
        date@ == date_part(timestamp@),
{
    let n = timestamp.unicode_len();
    let mut i: usize = 0;
    let mut chars = timestamp.chars();
    loop
        invariant_except_break
            chars.remaining() == timestamp@.skip(i as int),
        invariant
            n == timestamp@.len(),
            i <= n,
            forall|j: int| 0 <= j < i ==> !is_time_separator(#[trigger] timestamp@[j]),
        ensures
            i < n ==> is_time_separator(timestamp@[i as int]),
        decreases n - i,
    {
        match chars.next() {
            Some(c) => {
                if c == 'T' {
                    break;
                }
                i = i + 1;
            },
            None => {
                break;
            },
        }
    }
    proof {
        lemma_date_len_unique(timestamp@, i as int);
    }
    String::from_str(timestamp.substring_char(0, i))
}

/// A text without a time separator is its own date part.
pub proof fn lemma_date_part_of_date(s: Seq<char>)
    requires
        forall|i: int| 0 <= i < s.len() ==> !is_time_separator(#[trigger] s[i]),
    ensures
        date_part(s) == s,
{
    lemma_date_len_unique(s, s.len() as int);
}

/// Cutting a timestamp down to its date a second time changes nothing.
pub proof fn lemma_date_part_idempotent(s: Seq<char>)
    ensures
        date_part(date_part(s)) == date_part(s),
{
    lemma_date_len(s);
    lemma_date_part_of_date(date_part(s));
}

/// The word that the report shows for a flag.
pub open spec fn yes_no_text(flag: bool) -> Seq<char> {
    if flag {
        "Yes"@
    } else {
        "No"@
    }
}

/// `Yes` for `true`, `No` for `false`.
pub fn yes_no(flag: bool) -> (word: &'static str)
    ensures
        word@ == yes_no_text(flag),
{
    if flag {
        "Yes"
    } else {
        "No"
    }
}

/// The character of a decimal digit.
pub open spec fn digit_char(digit: nat) -> char {
    if digit == 0 {
        '0'
    } else if digit == 1 {
        '1'
    } else if digit == 2 {
        '2'
    } else if digit == 3 {
        '3'
    } else if digit == 4 {
        '4'
    } else if digit == 5 {
        '5'
    } else if digit == 6 {
        '6'
    } else if digit == 7 {
        '7'
    } else if digit == 8 {
        '8'
    } else {
        '9'
    }
}

/// A natural number in decimal notation: no sign, no leading zero, and `0`
/// for zero.
pub open spec fn decimal_text(n: nat) -> Seq<char>
    decreases n,
{
    if n < 10 {
        seq![digit_char(n)]
    } else {
        decimal_text(n / 10).push(digit_char(n % 10))
    }
}

fn digit(d: usize) -> (text: &'static str)
    requires
        d < 10,
    ensures
        text@ == seq![digit_char(d as nat)],
{
    proof {
        reveal_strlit("0");
        reveal_strlit("1");
        reveal_strlit("2");
        reveal_strlit("3");
        reveal_strlit("4");
        reveal_strlit("5");
        reveal_strlit("6");
        reveal_strlit("7");
        reveal_strlit("8");
        reveal_strlit("9");
    }
    let text = if d == 0 {
        "0"
    } else if d == 1 {
        "1"
    } else if d == 2 {
        "2"
    } else if d == 3 {
        "3"
    } else if d == 4 {
        "4"
    } else if d == 5 {
        "5"
    } else if d == 6 {
        "6"
    } else if d == 7 {
        "7"
    } else if d == 8 {
        "8"
    } else {
        "9"
    };
    text
}

/// Writes a number in decimal notation.
pub fn decimal(n: usize) -> (text: String)
    ensures
        text@ == decimal_text(n as nat),
    decreases n,
{
    if n < 10 {
        String::from_str(digit(n))
    } else {
        let mut text = decimal(n / 10);
        text.append(digit(n % 10));
        text
    }
}

} // verus!

//! Verified text helpers: repeated glyphs, path basenames, decimal rendering
//! of line numbers, and character predicates the rendering contracts speak
//! of.

use vstd::prelude::*;

verus! {

/// `c` is a decimal digit.
pub open spec fn is_digit(c: char) -> bool {
    '0' <= c && c <= '9'
}

/// No character of `s` is the ANSI escape character, so `s` cannot hold an
/// escape sequence.
pub open spec fn escape_free(s: Seq<char>) -> bool {
    forall|j: int| 0 <= j < s.len() ==> #[trigger] s[j] != '\u{1b}'
}

/// Relies on `String`'s `From<char>`: allocates a string holding exactly the
/// one given character.
#[verifier::external_body]
pub(crate) fn char_to_string(c: char) -> (r: String)
    ensures
        r@ == seq![c],
{
    String::from(c)
}

/// The string of `n` copies of `ch`.
pub open spec fn repeat_spec(ch: char, n: nat) -> Seq<char> {
    Seq::new(n, |i: int| ch)
}

/// Builds the string consisting of `ch` repeated `n` times.
pub fn repeat_char(ch: char, n: usize) -> (r: String)
    ensures
        r@ == repeat_spec(ch, n as nat),
{
    let mut s = String::new();
    let mut i: usize = 0;
    proof {
        assert(s@ =~= repeat_spec(ch, 0));
    }
    while i < n
        invariant
            i <= n,
            s@ == repeat_spec(ch, i as nat),
        decreases n - i,
    {
        let one = char_to_string(ch);
        s.append(one.as_str());
        i = i + 1;
        proof {
            assert(s@ =~= repeat_spec(ch, i as nat));
        }
    }
    s
}

/// The final path segment of `s`: everything after the last `/`, or all of
/// `s` when it holds no `/`.
pub open spec fn basename_spec(s: Seq<char>) -> Seq<char>
    decreases s.len(),
{
    if s.len() == 0 {
        s
    } else if s.last() == '/' {
        Seq::empty()
    } else {
        basename_spec(s.drop_last()).push(s.last())
    }
}

/// Extracts the final path segment of `file`, splitting on `/`.
pub fn basename(file: &str) -> (r: String)
    ensures
        r@ == basename_spec(file@),
{
    let len = file.unicode_len();
    let mut acc = String::new();
    let mut i: usize = 0;
    proof {
        assert(file@.subrange(0, 0) =~= Seq::<char>::empty());
    }
    while i < len
        invariant
            i <= len,
            len == file@.len(),
            acc@ == basename_spec(file@.subrange(0, i as int)),
        decreases len - i,
    {
        let c = file.get_char(i);
        if c == '/' {
            acc = String::new();
        } else {
            let one = char_to_string(c);
            acc.append(one.as_str());
        }
        i = i + 1;
        proof {
            let prefix = file@.subrange(0, i as int);
            assert(prefix.drop_last() =~= file@.subrange(0, i - 1));
            assert(prefix.last() == file@[i - 1]);
            assert(acc@ =~= basename_spec(prefix));
        }
    }
    proof {
        assert(file@.subrange(0, len as int) =~= file@);
    }
    acc
}

/// The character for one decimal digit.
pub open spec fn digit_char(d: nat) -> char {
    if d == 0 {
        '0'
    } else if d == 1 {
        '1'
    } else if d == 2 {
        '2'
    } else if d == 3 {
        '3'
    } else if d == 4 {
        '4'
    } else if d == 5 {
        '5'
    } else if d == 6 {
        '6'
    } else if d == 7 {
        '7'
    } else if d == 8 {
        '8'
    } else {
        '9'
    }
}

/// The decimal digits of `n`, most significant first, with no leading zeros
/// (except for `n == 0` itself).
pub open spec fn decimal_spec(n: nat) -> Seq<char>
    decreases n,
{
    if n < 10 {
        seq![digit_char(n)]
    } else {
        decimal_spec(n / 10).push(digit_char(n % 10))
    }
}

fn digit_str(d: u32) -> (r: String)
    requires
        d < 10,
    ensures
        r@ == seq![digit_char(d as nat)],
{
    let s = match d {
        0 => "0",
        1 => "1",
        2 => "2",
        3 => "3",
        4 => "4",
        5 => "5",
        6 => "6",
        7 => "7",
        8 => "8",
        _ => "9",
    };
    proof {
        reveal_strlit("0");
        reveal_strlit("1");
        reveal_strlit("2");
        reveal_strlit("3");
        reveal_strlit("4");
        reveal_strlit("5");
        reveal_strlit("6");
        reveal_strlit("7");
        reveal_strlit("8");
        reveal_strlit("9");
        assert(s@ =~= seq![digit_char(d as nat)]);
    }
    String::from_str(s)
}

/// Renders `n` in decimal.
pub fn u32_to_decimal(n: u32) -> (r: String)
    ensures
        r@ == decimal_spec(n as nat),
    decreases n,
{
    if n < 10 {
        digit_str(n)
    } else {
        let prefix = u32_to_decimal(n / 10);
        let last = digit_str(n % 10);
        let r = prefix.concat(last.as_str());
        proof {
            assert(r@ =~= decimal_spec(n as nat));
        }
        r
    }
}

} // verus!

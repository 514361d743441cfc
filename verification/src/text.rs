//! Small verified helpers on text.

use vstd::prelude::*;
use vstd::std_specs::iter::IteratorSpec;

verus! {

/// The characters of a string slice, one by one.
pub fn chars_of(s: &str) -> (v: Vec<char>)
    ensures
        v@ == s@,
{
    broadcast use vstd::string::next_postcondition;
    broadcast use vstd::string::axiom_spec_iter;

    let mut it = s.chars();
    let mut v: Vec<char> = Vec::new();
    loop
        invariant
            it.obeys_prophetic_iter_laws(),
            it.decrease() is Some,
            v@ + it.remaining() == s@,
        ensures
            v@ == s@,
        decreases it.decrease()->0,
    {
        let ghost before = it.remaining();
        match it.next() {
            Some(c) => {
                v.push(c);
                proof {
                    assert(v@ + it.remaining() =~= s@);
                }
            },
            None => {
                proof {
                    assert(v@ =~= s@);
                }
                break ;
            },
        }
    }
    v
}

/// Whether two string slices hold the same characters.
pub fn same_text(a: &str, b: &str) -> (r: bool)
    ensures
        r == (a@ == b@),
{
    let x = chars_of(a);
    let y = chars_of(b);
    if x.len() != y.len() {
        return false;
    }
    let mut i: usize = 0;
    while i < x.len()
        invariant
            i <= x@.len(),
            x@ == a@,
            y@ == b@,
            x@.len() == y@.len(),
            x@.take(i as int) == y@.take(i as int),
        decreases x@.len() - i,
    {
        if x[i] != y[i] {
            return false;
        }
        proof {
            assert(x@.take(i + 1) =~= x@.take(i as int).push(x@[i as int]));
            assert(y@.take(i + 1) =~= y@.take(i as int).push(y@[i as int]));
        }
        i = i + 1;
    }
    proof {
        assert(x@.take(i as int) =~= x@);
        assert(y@.take(i as int) =~= y@);
    }
    true
}

/// The character at place `i`, or a blank where the text is too short.
pub open spec fn char_or_blank(s: Seq<char>, i: int) -> char {
    if 0 <= i < s.len() {
        s[i]
    } else {
        ' '
    }
}

/// The length of a text with a few of its characters: enough to tell short
/// keywords apart without comparing them in full.
pub open spec fn fingerprint(s: Seq<char>) -> (nat, char, char, char, char, char, char) {
    (
        s.len(),
        char_or_blank(s, 0),
        char_or_blank(s, 1),
        char_or_blank(s, 2),
        char_or_blank(s, 3),
        char_or_blank(s, 4),
        char_or_blank(s, s.len() - 1),
    )
}

/// The character that writes one decimal digit.
pub open spec fn digit_char(d: nat) -> char {
    if d == 0 {
        '0'
    } else if d == 1 {
        '1'
    } else if d == 2 {
        '2'
    } else if d == 3 {
        '3'
    } else if d == 4 {
        '4'
    } else if d == 5 {
        '5'
    } else if d == 6 {
        '6'
    } else if d == 7 {
        '7'
    } else if d == 8 {
        '8'
    } else {
        '9'
    }
}

/// A natural number written in decimal, without leading zeros.
pub open spec fn number_text(n: nat) -> Seq<char>
    decreases n,
{
    if n < 10 {
        seq![digit_char(n)]
    } else {
        number_text(n / 10).push(digit_char(n % 10))
    }
}

fn digit_text(d: u64) -> (s: &'static str)
    requires
        d < 10,
    ensures
        s@ == seq![digit_char(d as nat)],
{
    proof {
        reveal_strlit("0");
        reveal_strlit("1");
        reveal_strlit("2");
        reveal_strlit("3");
        reveal_strlit("4");
        reveal_strlit("5");
        reveal_strlit("6");
        reveal_strlit("7");
        reveal_strlit("8");
        reveal_strlit("9");
    }
    let s = if d == 0 {
        "0"
    } else if d == 1 {
        "1"
    } else if d == 2 {
        "2"
    } else if d == 3 {
        "3"
    } else if d == 4 {
        "4"
    } else if d == 5 {
        "5"
    } else if d == 6 {
        "6"
    } else if d == 7 {
        "7"
    } else if d == 8 {
        "8"
    } else {
        "9"
    };
    proof {
        assert(s@ =~= seq![digit_char(d as nat)]);
    }
    s
}

/// Writes a number in decimal.
pub fn number_to_text(n: u64) -> (s: String)
    ensures
        s@ == number_text(n as nat),
    decreases n,
{
    if n < 10 {
        String::from_str(digit_text(n))
    } else {
        let head = number_to_text(n / 10);
        let s = head.concat(digit_text(n % 10));
        proof {
            assert(s@ =~= number_text((n / 10) as nat).push(digit_char((n % 10) as nat)));
        }
        s
    }
}

/// `String::push`: appends one character.
#[verifier::external_body]
pub(crate) fn push_char(text: &mut String, c: char)
    ensures
        final(text)@ == old(text)@.push(c),
{
    text.push(c)
}

/// How deep inside braces the text ends: the opening braces met, less the
/// closing ones.
pub open spec fn depth_after(s: Seq<char>) -> int
    decreases s.len(),
{
    if s.len() == 0 {
        0
    } else {
        depth_after(s.drop_last()) + if s.last() == '{' {
            1int
        } else if s.last() == '}' {
            -1int
        } else {
            0int
        }
    }
}

/// Whether the character at the end of `s` belongs to a braced block: it
/// stands inside braces, or is the closing brace that ends a block.
pub open spec fn in_block(s: Seq<char>) -> bool
    recommends
        s.len() > 0,
{
    depth_after(s) != 0 || (s.last() == '}' && s.drop_last().contains('{'))
}

/// The braced blocks of a text, braces included, one after the other: what
/// is left once everything outside braces is dropped.
pub open spec fn framed(s: Seq<char>) -> Seq<char>
    decreases s.len(),
{
    if s.len() == 0 {
        Seq::empty()
    } else if in_block(s) {
        framed(s.drop_last()).push(s.last())
    } else {
        framed(s.drop_last())
    }
}

/// Cuts the braced blocks out of a text, such as the object literal that a
/// script hands to a function call.
pub fn extract_json_from_string(input: &str) -> (out: String)
    ensures
        out@ == framed(input@),
{
    let chars = chars_of(input);
    let mut out = String::new();
    let mut brackets: i128 = 0;
    let mut is_start = true;
    let mut i: usize = 0;
    while i < chars.len()
        invariant
            i <= chars@.len(),
            brackets as int == depth_after(chars@.take(i as int)),
            -(i as int) <= brackets as int <= i as int,
            is_start == !chars@.take(i as int).contains('{'),
            out@ == framed(chars@.take(i as int)),
        decreases chars@.len() - i,
    {
        let c = chars[i];
        let ghost before = chars@.take(i as int);
        let ghost after = chars@.take(i + 1);
        proof {
            assert(after.drop_last() =~= before);
            assert(after.last() == c);
        }
        let mut closes = false;
        if c == '{' {
            brackets = brackets + 1;
            is_start = false;
            proof {
                assert(after[i as int] == '{');
            }
        } else {
            if c == '}' {
                brackets = brackets - 1;
                closes = !is_start && brackets == 0;
            }
            proof {
                if before.contains('{') {
                    let k = choose|k: int| 0 <= k < before.len() && before[k] == '{';
                    assert(after[k] == '{');
                }
                if after.contains('{') {
                    let k = choose|k: int| 0 <= k < after.len() && after[k] == '{';
                    assert(before[k] == '{');
                }
            }
        }
        if closes || brackets != 0 {
            push_char(&mut out, c);
        }
        i = i + 1;
    }
    proof {
        assert(chars@.take(i as int) =~= chars@);
    }
    out
}

} // verus!

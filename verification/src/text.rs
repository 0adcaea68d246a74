//! Text helpers of the chat: avatar addresses, decimal numbers, the `.gif`
//! suffix test and the blank-input test.
use vstd::prelude::*;

verus! {

/// The address of a user's avatar: the dicebear "adventurer-neutral" image
/// named after the user.
pub open spec fn avatar_url_of(name: Seq<char>) -> Seq<char> {
    "https://avatars.dicebear.com/api/adventurer-neutral/"@ + name + ".svg"@
}

/// Builds the avatar address of the user called `name`.
pub fn avatar_url(name: &str) -> (url: String)
    ensures
        url@ == avatar_url_of(name@),
{
    let mut url = "https://avatars.dicebear.com/api/adventurer-neutral/".to_owned();
    url.append(name);
    url.append(".svg");
    url
}

/// The decimal digit `d` (for `d < 10`) as a character.
pub open spec fn digit_char(d: nat) -> char {
    seq!['0', '1', '2', '3', '4', '5', '6', '7', '8', '9'][d as int]
}

/// The decimal representation of `n`, without leading zeros.
pub open spec fn decimal(n: nat) -> Seq<char>
    decreases n,
{
    if n < 10 {
        seq![digit_char(n)]
    } else {
        decimal(n / 10).push(digit_char(n % 10))
    }
}

fn digit_str(d: usize) -> (s: &'static str)
    requires
        d < 10,
    ensures
        s@ == seq![digit_char(d as nat)],
{
    if d == 0 {
        proof { reveal_strlit("0"); }
        "0"
    } else if d == 1 {
        proof { reveal_strlit("1"); }
        "1"
    } else if d == 2 {
        proof { reveal_strlit("2"); }
        "2"
    } else if d == 3 {
        proof { reveal_strlit("3"); }
        "3"
    } else if d == 4 {
        proof { reveal_strlit("4"); }
        "4"
    } else if d == 5 {
        proof { reveal_strlit("5"); }
        "5"
    } else if d == 6 {
        proof { reveal_strlit("6"); }
        "6"
    } else if d == 7 {
        proof { reveal_strlit("7"); }
        "7"
    } else if d == 8 {
        proof { reveal_strlit("8"); }
        "8"
    } else {
        proof { reveal_strlit("9"); }
        "9"
    }
}

/// Appends the decimal representation of `n` to `out`.
pub fn push_decimal(out: &mut String, n: usize)
    ensures
        final(out)@ == old(out)@ + decimal(n as nat),
    decreases n,
{
    if n >= 10 {
        push_decimal(out, n / 10);
    }
    out.append(digit_str(n % 10));
    proof {
        if n >= 10 {
            assert(old(out)@ + decimal(n as nat) =~= old(out)@ + decimal((n / 10) as nat) + seq![
                digit_char((n % 10) as nat),
            ]);
        }
    }
}

/// Whether `s` ends with the four characters `.gif`.
pub open spec fn ends_with_gif(s: Seq<char>) -> bool {
    s.len() >= 4 && s.subrange(s.len() - 4, s.len() as int) == ".gif"@
}

/// Whether a chat message names a GIF image, that is ends with `.gif`.
pub fn is_gif(message: &str) -> (res: bool)
    ensures
        res == ends_with_gif(message@),
{
    proof { reveal_strlit(".gif"); }
    let n = message.unicode_len();
    if n < 4 {
        return false;
    }
    let res = message.get_char(n - 4) == '.' && message.get_char(n - 3) == 'g'
        && message.get_char(n - 2) == 'i' && message.get_char(n - 1) == 'f';
    proof {
        let tail = message@.subrange(n - 4, n as int);
        if res {
            assert(tail =~= ".gif"@);
        } else if tail == ".gif"@ {
            assert(tail[0] == message@[n - 4]);
            assert(tail[1] == message@[n - 3]);
            assert(tail[2] == message@[n - 2]);
            assert(tail[3] == message@[n - 1]);
        }
    }
    res
}

/// Whether `c` has the Unicode `White_Space` property: the 25 code points
/// U+0009 to U+000D, U+0020, U+0085, U+00A0, U+1680, U+2000 to U+200A,
/// U+2028, U+2029, U+202F, U+205F and U+3000.
pub open spec fn white_space(c: char) -> bool {
    ||| '\u{9}' <= c <= '\u{d}'
    ||| c == '\u{20}'
    ||| c == '\u{85}'
    ||| c == '\u{a0}'
    ||| c == '\u{1680}'
    ||| '\u{2000}' <= c <= '\u{200a}'
    ||| c == '\u{2028}'
    ||| c == '\u{2029}'
    ||| c == '\u{202f}'
    ||| c == '\u{205f}'
    ||| c == '\u{3000}'
}

/// Calls `char::is_whitespace`, which std documents as telling whether the
/// character has the Unicode `White_Space` property; the contract claims
/// that its answer is `white_space(c)`, the list of code points that the
/// Unicode Character Database gives that property.
#[verifier::external_body]
fn char_is_white_space(c: char) -> (res: bool)
    ensures
        res == white_space(c),
{
    c.is_whitespace()
}

/// Whether every character of `s` is white space, that is whether `s`
/// trims to the empty string.
pub open spec fn blank(s: Seq<char>) -> bool {
    forall|i: int| 0 <= i < s.len() ==> white_space(#[trigger] s[i])
}

/// Whether `s` holds nothing but white space (the empty string included).
pub fn is_blank(s: &str) -> (res: bool)
    ensures
        res == blank(s@),
{
    for c in it: s.chars()
        invariant
            it.seq() == s@,
            forall|j: int| 0 <= j < it.index() ==> white_space(#[trigger] s@[j]),
    {
        if !char_is_white_space(c) {
            return false;
        }
    }
    true
}

} // verus!

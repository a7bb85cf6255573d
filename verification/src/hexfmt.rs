//! Rendering a sequence of words as hexadecimal: the big-endian,
//! `0x`-prefixed form account identities are shown in.

use vstd::prelude::*;
use vstd::string::StringExecFns;

use crate::Word;

verus! {

/// The character of one hexadecimal digit.
pub open spec fn hex_digit(n: u64) -> char {
    if n == 0 {
        '0'
    } else if n == 1 {
        '1'
    } else if n == 2 {
        '2'
    } else if n == 3 {
        '3'
    } else if n == 4 {
        '4'
    } else if n == 5 {
        '5'
    } else if n == 6 {
        '6'
    } else if n == 7 {
        '7'
    } else if n == 8 {
        '8'
    } else if n == 9 {
        '9'
    } else if n == 10 {
        'a'
    } else if n == 11 {
        'b'
    } else if n == 12 {
        'c'
    } else if n == 13 {
        'd'
    } else if n == 14 {
        'e'
    } else {
        'f'
    }
}

/// The nibble of `u` that `sh` bits of right shift expose.
pub open spec fn nibble_of(u: u64, sh: u64) -> u64 {
    (u >> sh) & 0xf
}

/// The sixteen hexadecimal digits of one word's two's-complement
/// representation, most significant first.
pub open spec fn word_hex(u: u64) -> Seq<char> {
    Seq::new(16, |j: int| hex_digit(nibble_of(u, (4 * (15 - j)) as u64)))
}

/// The hexadecimal digits of a sequence of words, in order.
pub open spec fn words_hex(ws: Seq<Word>) -> Seq<char>
    decreases ws.len(),
{
    if ws.len() == 0 {
        Seq::empty()
    } else {
        words_hex(ws.drop_last()) + word_hex(ws.last() as u64)
    }
}

/// The full rendering: a `0x` prefix, then every word's digits.
pub open spec fn hex_string_of(ws: Seq<Word>) -> Seq<char> {
    seq!['0', 'x'] + words_hex(ws)
}

/// Converts a sequence of words to its big-endian hexadecimal string,
/// prefixed with `0x`.
pub fn to_hex_string(vec: Vec<Word>) -> (r: String)
    ensures
        r@ == hex_string_of(vec@),
{
    let prefix = "0x";
    let mut s = prefix.to_owned();
    proof {
        reveal_strlit("0x");
        assert(s@ =~= seq!['0', 'x']);
    }
    let mut i: usize = 0;
    while i < vec.len()
        invariant
            i <= vec.len(),
            s@ == seq!['0', 'x'] + words_hex(vec@.subrange(0, i as int)),
        decreases vec.len() - i,
    {
        push_word_hex(&mut s, vec[i]);
        proof {
            let pre = vec@.subrange(0, i as int);
            let cur = vec@.subrange(0, i + 1 as int);
            assert(cur.drop_last() =~= pre);
            assert(cur.last() == vec@[i as int]);
            assert(s@ =~= seq!['0', 'x'] + words_hex(cur));
        }
        i += 1;
    }
    proof {
        assert(vec@.subrange(0, vec@.len() as int) =~= vec@);
    }
    s
}

/// Appends one word's sixteen digits, most significant nibble first.
fn push_word_hex(s: &mut String, w: Word)
    ensures
        final(s)@ == old(s)@ + word_hex(w as u64),
{
    let u: u64 = w as u64;
    let mut j: usize = 0;
    while j < 16
        invariant
            j <= 16,
            u == w as u64,
            s@ == old(s)@ + word_hex(u).subrange(0, j as int),
        decreases 16 - j,
    {
        let sh: u64 = (4 * (15 - j)) as u64;
        let nib: u64 = (u >> sh) & 0xf;
        proof {
            assert((u >> sh) & 0xf < 16) by (bit_vector);
            assert(nib == nibble_of(u, sh));
        }
        let d = hex_digit_str(nib);
        s.append(d);
        proof {
            assert(word_hex(u)[j as int] == hex_digit(nibble_of(u, sh)));
            assert(s@ =~= old(s)@ + word_hex(u).subrange(0, j + 1 as int));
        }
        j += 1;
    }
    proof {
        assert(word_hex(u).subrange(0, 16) =~= word_hex(u));
    }
}

/// The one-character string of one hexadecimal digit.
fn hex_digit_str(nib: u64) -> (r: &'static str)
    requires
        nib < 16,
    ensures
        r@ == seq![hex_digit(nib)],
{
    proof {
        reveal_strlit("0");
        reveal_strlit("1");
        reveal_strlit("2");
        reveal_strlit("3");
        reveal_strlit("4");
        reveal_strlit("5");
        reveal_strlit("6");
        reveal_strlit("7");
        reveal_strlit("8");
        reveal_strlit("9");
        reveal_strlit("a");
        reveal_strlit("b");
        reveal_strlit("c");
        reveal_strlit("d");
        reveal_strlit("e");
        reveal_strlit("f");
    }
    if nib == 0 {
        let r = "0";
        assert(r@ =~= seq![hex_digit(nib)]);
        r
    } else if nib == 1 {
        let r = "1";
        assert(r@ =~= seq![hex_digit(nib)]);
        r
    } else if nib == 2 {
        let r = "2";
        assert(r@ =~= seq![hex_digit(nib)]);
        r
    } else if nib == 3 {
        let r = "3";
        assert(r@ =~= seq![hex_digit(nib)]);
        r
    } else if nib == 4 {
        let r = "4";
        assert(r@ =~= seq![hex_digit(nib)]);
        r
    } else if nib == 5 {
        let r = "5";
        assert(r@ =~= seq![hex_digit(nib)]);
        r
    } else if nib == 6 {
        let r = "6";
        assert(r@ =~= seq![hex_digit(nib)]);
        r
    } else if nib == 7 {
        let r = "7";
        assert(r@ =~= seq![hex_digit(nib)]);
        r
    } else if nib == 8 {
        let r = "8";
        assert(r@ =~= seq![hex_digit(nib)]);
        r
    } else if nib == 9 {
        let r = "9";
        assert(r@ =~= seq![hex_digit(nib)]);
        r
    } else if nib == 10 {
        let r = "a";
        assert(r@ =~= seq![hex_digit(nib)]);
        r
    } else if nib == 11 {
        let r = "b";
        assert(r@ =~= seq![hex_digit(nib)]);
        r
    } else if nib == 12 {
        let r = "c";
        assert(r@ =~= seq![hex_digit(nib)]);
        r
    } else if nib == 13 {
        let r = "d";
        assert(r@ =~= seq![hex_digit(nib)]);
        r
    } else if nib == 14 {
        let r = "e";
        assert(r@ =~= seq![hex_digit(nib)]);
        r
    } else {
        let r = "f";
        assert(r@ =~= seq![hex_digit(nib)]);
        r
    }
}

} // verus!

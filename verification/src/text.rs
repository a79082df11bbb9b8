//! Character-level text operations shared by the metadata parser, the
//! property classifier and the tag resolver: equality of string slices and
//! lowercasing of identifiers.

use vstd::prelude::*;
use vstd::string::StrSliceExecFns;
use vstd::string::StringExecFns;

verus! {

/// The lowercase image of one character: an ASCII capital letter maps to the
/// matching small letter, every other character is unchanged.
pub open spec fn lower_char(c: char) -> char {
    if 65 <= c as u32 && c as u32 <= 90 {
        ((c as u32) + 32) as char
    } else {
        c
    }
}

/// The lowercase image of a text, character by character.
pub open spec fn lower_text(s: Seq<char>) -> Seq<char> {
    s.map_values(|c: char| lower_char(c))
}

/// Decides whether two string slices hold the same characters.
pub fn str_eq(a: &str, b: &str) -> (r: bool)
    ensures
        r == (a@ == b@),
{
    let n = a.unicode_len();
    if n != b.unicode_len() {
        return false;
    }
    let mut i: usize = 0;
    while i < n
        invariant
            n == a@.len(),
            n == b@.len(),
            0 <= i <= n,
            forall|j: int| 0 <= j < i ==> a@[j] == b@[j],
        decreases n - i,
    {
        if a.get_char(i) != b.get_char(i) {
            return false;
        }
        i += 1;
    }
    proof {
        assert(a@ =~= b@);
    }
    true
}

/// The lowercase letter matching one ASCII capital, as a string slice.
fn lower_letter(c: char) -> (r: &'static str)
    requires
        65 <= c as u32 && c as u32 <= 90,
    ensures
        r@ == seq![lower_char(c)],
{
    proof {
        reveal_strlit("a");
        reveal_strlit("b");
        reveal_strlit("c");
        reveal_strlit("d");
        reveal_strlit("e");
        reveal_strlit("f");
        reveal_strlit("g");
        reveal_strlit("h");
        reveal_strlit("i");
        reveal_strlit("j");
        reveal_strlit("k");
        reveal_strlit("l");
        reveal_strlit("m");
        reveal_strlit("n");
        reveal_strlit("o");
        reveal_strlit("p");
        reveal_strlit("q");
        reveal_strlit("r");
        reveal_strlit("s");
        reveal_strlit("t");
        reveal_strlit("u");
        reveal_strlit("v");
        reveal_strlit("w");
        reveal_strlit("x");
        reveal_strlit("y");
        reveal_strlit("z");
    }
    match c {
        'A' => "a",
        'B' => "b",
        'C' => "c",
        'D' => "d",
        'E' => "e",
        'F' => "f",
        'G' => "g",
        'H' => "h",
        'I' => "i",
        'J' => "j",
        'K' => "k",
        'L' => "l",
        'M' => "m",
        'N' => "n",
        'O' => "o",
        'P' => "p",
        'Q' => "q",
        'R' => "r",
        'S' => "s",
        'T' => "t",
        'U' => "u",
        'V' => "v",
        'W' => "w",
        'X' => "x",
        'Y' => "y",
        _ => "z",
    }
}

/// Builds the lowercase image of a string slice.
pub fn lower_str(s: &str) -> (r: String)
    ensures
        r@ == lower_text(s@),
{
    let n = s.unicode_len();
    let mut r = String::new();
    let mut i: usize = 0;
    while i < n
        invariant
            n == s@.len(),
            0 <= i <= n,
            r@ == lower_text(s@.subrange(0, i as int)),
        decreases n - i,
    {
        let c = s.get_char(i);
        if 65 <= (c as u32) && (c as u32) <= 90 {
            r.append(lower_letter(c));
        } else {
            r.append(s.substring_char(i, i + 1));
        }
        proof {
            assert(s@.subrange(0, (i + 1) as int) =~= s@.subrange(0, i as int).push(
                s@[i as int],
            ));
            assert(lower_text(s@.subrange(0, (i + 1) as int)) =~= lower_text(
                s@.subrange(0, i as int),
            ) + seq![lower_char(s@[i as int])]);
        }
        i += 1;
    }
    proof {
        assert(s@.subrange(0, n as int) =~= s@);
    }
    r
}

} // verus!

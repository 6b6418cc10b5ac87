//! Text helpers over the character view of strings.
use vstd::prelude::*;
use vstd::std_specs::iter::IteratorSpec;

verus! {

/// Whether two strings hold the same characters.
pub fn same_text(a: &str, b: &str) -> (r: bool)
    ensures
        r == (a@ == b@),
{
    let mut left = a.chars();
    let mut right = b.chars();
    let ghost mut seen: Seq<char> = Seq::empty();
    assert(seen + left.remaining() == a@);
    assert(seen + right.remaining() == b@);
    loop
        invariant
            left.obeys_prophetic_iter_laws(),
            right.obeys_prophetic_iter_laws(),
            seen + left.remaining() == a@,
            seen + right.remaining() == b@,
        decreases a@.len() - seen.len(),
    {
        let ghost l = left.remaining();
        let ghost r = right.remaining();
        match (left.next(), right.next()) {
            (Some(x), Some(y)) => {
                if x != y {
                    proof {
                        assert((seen + l)[seen.len() as int] == x);
                        assert((seen + r)[seen.len() as int] == y);
                    }
                    return false;
                }
                proof {
                    seen = seen.push(x);
                    assert(seen + left.remaining() == a@);
                    assert(seen + right.remaining() == b@);
                }
            },
            (None, None) => {
                return true;
            },
            _ => {
                proof {
                    assert((seen + l).len() != (seen + r).len());
                }
                return false;
            },
        }
    }
}

/// The characters of a string.
pub fn chars_of(s: &str) -> (r: Vec<char>)
    ensures
        r@ == s@,
{
    let mut chars: Vec<char> = Vec::new();
    for c in it: s.chars()
        invariant
            chars@ == it.seq().take(it.index()),
            it.seq() == s@,
    {
        chars.push(c);
    }
    chars
}

/// The characters with the Unicode property `White_Space`.
pub open spec fn is_white_space(c: char) -> bool {
    let u = c as u32;
    ||| 0x09 <= u <= 0x0d
    ||| u == 0x20
    ||| u == 0x85
    ||| u == 0xa0
    ||| u == 0x1680
    ||| 0x2000 <= u <= 0x200a
    ||| u == 0x2028
    ||| u == 0x2029
    ||| u == 0x202f
    ||| u == 0x205f
    ||| u == 0x3000
}

/// `char::is_whitespace`: whether the character has the Unicode property `White_Space`.
pub assume_specification[ char::is_whitespace ](c: char) -> (r: bool)
    ensures
        r == is_white_space(c),
;

/// A text of white space only, or of nothing.
pub open spec fn blank(s: Seq<char>) -> bool {
    forall|i: int| 0 <= i < s.len() ==> is_white_space(#[trigger] s[i])
}

/// Whether nothing is left of a string once the white space around it is removed.
pub fn is_blank(s: &str) -> (r: bool)
    ensures
        r == blank(s@),
{
    let chars = chars_of(s);
    let mut i: usize = 0;
    while i < chars.len()
        invariant
            i <= chars@.len(),
            chars@ == s@,
            forall|j: int| 0 <= j < i ==> is_white_space(#[trigger] s@[j]),
        decreases chars@.len() - i,
    {
        if !chars[i].is_whitespace() {
            assert(!is_white_space(s@[i as int]));
            return false;
        }
        i = i + 1;
    }
    true
}

} // verus!

//! Text building blocks of the report and of the store's paths.

use vstd::prelude::*;
use vstd::string::*;

verus! {

/// `n` spaces.
pub open spec fn spaces(n: nat) -> Seq<char> {
    Seq::new(n, |i: int| ' ')
}

/// `s` aligned to the right in a field of `width` characters: spaces in
/// front make up the width, and a longer `s` stays as it is.
pub open spec fn right_aligned(s: Seq<char>, width: nat) -> Seq<char> {
    if s.len() < width {
        spaces((width - s.len()) as nat) + s
    } else {
        s
    }
}

/// Aligns `s` to the right in a field of `width` characters.
pub fn pad_left(s: &str, width: usize) -> (out: String)
    ensures
        out@ == right_aligned(s@, width as nat),
{
    let len = s.unicode_len();
    let mut out = String::new();
    if len < width {
        let gap: usize = width - len;
        let mut i: usize = 0;
        while i < gap
            invariant
                i <= gap,
                out@ == spaces(i as nat),
            decreases gap - i,
        {
            proof {
                reveal_strlit(" ");
            }
            out.append(" ");
            i += 1;
            assert(out@ =~= spaces(i as nat));
        }
    }
    out.append(s);
    proof {
        if len < width {
            assert(out@ =~= spaces((width - len) as nat) + s@);
        } else {
            assert(out@ =~= s@);
        }
    }
    out
}

/// `a` followed by `b`.
pub fn join2(a: &str, b: &str) -> (out: String)
    ensures
        out@ == a@ + b@,
{
    let mut out = String::from_str(a);
    out.append(b);
    out
}

/// `a`, `b` and `c` in a row.
pub fn join3(a: &str, b: &str, c: &str) -> (out: String)
    ensures
        out@ == a@ + b@ + c@,
{
    let mut out = String::from_str(a);
    out.append(b);
    out.append(c);
    out
}

} // verus!

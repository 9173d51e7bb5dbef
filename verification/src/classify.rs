//! Classification of discovered filesystem entries.
//!
//! A path is eligible for conversion when its file name carries an extension
//! that, compared case-insensitively over ASCII letters, is one of the
//! recognized image extensions: `jpg`, `jpeg`, `png`, `bmp`, `webp`.

use vstd::prelude::*;
use crate::paths::ext_of;
use crate::paths::extension_of;

verus! {

/// `a` equals `b` up to ASCII case, where `b` is already lower case.
pub open spec fn ci_eq_char(a: char, b: char) -> bool {
    a == b || (65 <= a as int && a as int <= 90 && a as int + 32 == b as int)
}

/// `s` equals `t` character-wise up to ASCII case, `t` being lower case.
pub open spec fn ci_eq(s: Seq<char>, t: Seq<char>) -> bool {
    s.len() == t.len() && forall|i: int| 0 <= i < s.len() ==> ci_eq_char(s[i], t[i])
}

/// `e` is one of the recognized image extensions, up to ASCII case.
pub open spec fn image_ext(e: Seq<char>) -> bool {
    ||| ci_eq(e, seq!['j', 'p', 'g'])
    ||| ci_eq(e, seq!['j', 'p', 'e', 'g'])
    ||| ci_eq(e, seq!['p', 'n', 'g'])
    ||| ci_eq(e, seq!['b', 'm', 'p'])
    ||| ci_eq(e, seq!['w', 'e', 'b', 'p'])
}

/// The path's file name has a recognized image extension.
pub open spec fn is_image_spec(p: Seq<char>) -> bool {
    match ext_of(p) {
        Some(e) => image_ext(e),
        None => false,
    }
}

/// Case-insensitive character comparison against a lower-case `b`.
fn ci_char(a: char, b: char) -> (r: bool)
    ensures
        r == ci_eq_char(a, b),
{
    if a == b {
        true
    } else {
        let ua = a as u32;
        let ub = b as u32;
        ua >= 65 && ua <= 90 && ua + 32 == ub
    }
}

/// Case-insensitive string comparison against a lower-case `b`.
fn ci_str(a: &str, b: &str) -> (r: bool)
    ensures
        r == ci_eq(a@, b@),
{
    let na: usize = a.unicode_len();
    let nb: usize = b.unicode_len();
    if na != nb {
        return false;
    }
    let mut i: usize = 0;
    while i < na
        invariant
            i <= na,
            na == a@.len(),
            nb == b@.len(),
            na == nb,
            forall|j: int| 0 <= j < i ==> ci_eq_char(a@[j], b@[j]),
        decreases na - i,
    {
        if !ci_char(a.get_char(i), b.get_char(i)) {
            return false;
        }
        i = i + 1;
    }
    true
}

/// Whether `input_path` names a convertible image file: its extension is one
/// of `jpg`, `jpeg`, `png`, `bmp`, `webp`, compared case-insensitively.
pub fn is_image(input_path: &str) -> (r: bool)
    ensures
        r == is_image_spec(input_path@),
{
    match extension_of(input_path) {
        None => false,
        Some(e) => {
            proof {
                reveal_strlit("jpg");
                reveal_strlit("jpeg");
                reveal_strlit("png");
                reveal_strlit("bmp");
                reveal_strlit("webp");
                assert("jpg"@ =~= seq!['j', 'p', 'g']);
                assert("jpeg"@ =~= seq!['j', 'p', 'e', 'g']);
                assert("png"@ =~= seq!['p', 'n', 'g']);
                assert("bmp"@ =~= seq!['b', 'm', 'p']);
                assert("webp"@ =~= seq!['w', 'e', 'b', 'p']);
            }
            let es = e.as_str();
            ci_str(es, "jpg") || ci_str(es, "jpeg") || ci_str(es, "png") || ci_str(es, "bmp")
                || ci_str(es, "webp")
        },
    }
}

} // verus!

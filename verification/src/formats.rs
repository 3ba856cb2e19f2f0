//! Extension classification: extracting a filename's extension and testing
//! membership in the allow-list of supported formats.

use vstd::prelude::*;

verus! {

/// A character is an ASCII letter or digit.
pub open spec fn is_ascii_alnum_char(c: char) -> bool {
    (48 <= c as u32 && c as u32 <= 57) || (65 <= c as u32 && c as u32 <= 90) || (97 <= c as u32
        && c as u32 <= 122)
}

/// Every character of the sequence is an ASCII letter or digit.
pub open spec fn all_ascii_alnum(s: Seq<char>) -> bool {
    forall|i: int| 0 <= i < s.len() ==> is_ascii_alnum_char(s[i])
}

/// The sequence contains at least one '.'.
pub open spec fn has_dot(s: Seq<char>) -> bool {
    exists|i: int| 0 <= i < s.len() && s[i] == '.'
}

/// Index of the last '.' of the sequence (meaningful only when `has_dot`).
pub open spec fn last_dot(s: Seq<char>) -> int
    decreases s.len(),
{
    if s.len() == 0 {
        0
    } else if s[s.len() - 1] == '.' {
        s.len() - 1
    } else {
        last_dot(s.drop_last())
    }
}

/// The extension of a filename: the substring from the last '.' to the end,
/// provided every character after that dot is an ASCII letter or digit;
/// the empty sequence otherwise.
pub open spec fn ext_spec(s: Seq<char>) -> Seq<char> {
    if has_dot(s) && all_ascii_alnum(s.subrange(last_dot(s) + 1, s.len() as int)) {
        s.subrange(last_dot(s), s.len() as int)
    } else {
        Seq::<char>::empty()
    }
}

/// When the sequence holds a dot, `last_dot` — the index `ext_spec` cuts
/// at — is the index of the last one: a dot with no dot after it.
pub proof fn lemma_last_dot(s: Seq<char>)
    requires
        has_dot(s),
    ensures
        0 <= last_dot(s) < s.len(),
        s[last_dot(s)] == '.',
        forall|j: int| last_dot(s) < j < s.len() ==> s[j] != '.',
    decreases s.len(),
{
    if s[s.len() - 1] == '.' {
    } else {
        let i = choose|i: int| 0 <= i < s.len() && s[i] == '.';
        assert(s.drop_last()[i] == s[i]);
        lemma_last_dot(s.drop_last());
        assert(s[last_dot(s.drop_last())] == s.drop_last()[last_dot(s.drop_last())]);
        assert forall|j: int| last_dot(s) < j < s.len() implies s[j] != '.' by {
            if j < s.len() - 1 {
                assert(s.drop_last()[j] == s[j]);
            }
        }
    }
}

/// `last_dot` is determined by being a dot with no dot after it.
proof fn lemma_last_dot_unique(s: Seq<char>, d: int)
    requires
        0 <= d < s.len(),
        s[d] == '.',
        forall|j: int| d < j < s.len() ==> s[j] != '.',
    ensures
        last_dot(s) == d,
    decreases s.len(),
{
    if s[s.len() - 1] == '.' {
    } else {
        assert(s.drop_last()[d] == s[d]);
        lemma_last_dot_unique(s.drop_last(), d);
    }
}

/// An ASCII letter or digit test on one character.
fn is_ascii_alnum(c: char) -> (r: bool)
    ensures
        r == is_ascii_alnum_char(c),
{
    let u = c as u32;
    (48 <= u && u <= 57) || (65 <= u && u <= 90) || (97 <= u && u <= 122)
}

/// Returns the substring of `filename` from the last '.' to the end when every
/// character after that dot is an ASCII letter or digit, and `""` otherwise.
pub fn extension<'a>(filename: &'a str) -> (r: &'a str)
    ensures
        r@ == ext_spec(filename@),
{
    let n: usize = filename.unicode_len();
    let mut i: usize = 0;
    let mut dot: usize = n;
    while i < n
        invariant
            n == filename@.len(),
            i <= n,
            dot <= n,
            dot == n ==> forall|j: int| 0 <= j < i ==> filename@[j] != '.',
            dot < n ==> dot < i && filename@[dot as int] == '.' && forall|j: int|
                dot < j < i ==> filename@[j] != '.',
        decreases n - i,
    {
        if filename.get_char(i) == '.' {
            dot = i;
        }
        i += 1;
    }
    if dot == n {
        proof {
            assert(!has_dot(filename@));
            reveal_strlit("");
            assert(""@ =~= ext_spec(filename@));
        }
        return "";
    }
    proof {
        lemma_last_dot_unique(filename@, dot as int);
    }
    let mut k: usize = dot + 1;
    let mut ok = true;
    while k < n
        invariant
            n == filename@.len(),
            dot < k <= n,
            ok == (forall|j: int| dot < j < k ==> is_ascii_alnum_char(filename@[j])),
        decreases n - k,
    {
        if !is_ascii_alnum(filename.get_char(k)) {
            ok = false;
        }
        k += 1;
    }
    if ok {
        proof {
            assert(all_ascii_alnum(filename@.subrange(dot + 1, n as int))) by {
                let sub = filename@.subrange(dot + 1, n as int);
                assert forall|j: int| 0 <= j < sub.len() implies is_ascii_alnum_char(
                    sub[j],
                ) by {
                    assert(sub[j] == filename@[dot + 1 + j]);
                }
            }
        }
        filename.substring_char(dot, n)
    } else {
        proof {
            let j = choose|j: int| dot < j < n && !is_ascii_alnum_char(filename@[j]);
            assert(filename@.subrange(dot + 1, n as int)[j - dot - 1] == filename@[j]);
            reveal_strlit("");
            assert(""@ =~= ext_spec(filename@));
        }
        ""
    }
}

/// The code of a character with ASCII upper-case letters folded to lower case.
pub open spec fn lower_code(c: char) -> u32 {
    if 65 <= c as u32 && c as u32 <= 90 {
        (c as u32 + 32) as u32
    } else {
        c as u32
    }
}

/// Two characters are equal up to ASCII case.
pub open spec fn char_eq_ci(a: char, b: char) -> bool {
    lower_code(a) == lower_code(b)
}

/// Two character sequences are equal up to ASCII case.
pub open spec fn seq_eq_ci(a: Seq<char>, b: Seq<char>) -> bool {
    a.len() == b.len() && forall|i: int| 0 <= i < a.len() ==> char_eq_ci(a[i], b[i])
}

/// Compares two strings for equality up to ASCII case.
fn str_eq_ci(a: &str, b: &str) -> (r: bool)
    ensures
        r == seq_eq_ci(a@, b@),
{
    let na: usize = a.unicode_len();
    let nb: usize = b.unicode_len();
    if na != nb {
        return false;
    }
    let mut i: usize = 0;
    let mut eq = true;
    while i < na
        invariant
            na == a@.len(),
            na == b@.len(),
            i <= na,
            eq == (forall|j: int| 0 <= j < i ==> char_eq_ci(a@[j], b@[j])),
        decreases na - i,
    {
        let ca = a.get_char(i) as u32;
        let cb = b.get_char(i) as u32;
        let la = if 65 <= ca && ca <= 90 {
            ca + 32
        } else {
            ca
        };
        let lb = if 65 <= cb && cb <= 90 {
            cb + 32
        } else {
            cb
        };
        if la != lb {
            eq = false;
        }
        i += 1;
    }
    eq
}

/// The filename's extension is one of the supported ones, compared without
/// regard to ASCII case.
pub open spec fn valid_ext_spec(f: Seq<char>) -> bool {
    let e = ext_spec(f);
    seq_eq_ci(e, ".jpg"@) || seq_eq_ci(e, ".jpeg"@) || seq_eq_ci(e, ".png"@) || seq_eq_ci(
        e,
        ".gif"@,
    ) || seq_eq_ci(e, ".bmp"@)
}

/// Returns whether the filename's extension belongs to the allow-list
/// {.jpg, .jpeg, .png, .gif, .bmp}, compared without regard to ASCII case.
pub fn ext_is_valid(filename: &str) -> (r: bool)
    ensures
        r == valid_ext_spec(filename@),
{
    let e = extension(filename);
    str_eq_ci(e, ".jpg") || str_eq_ci(e, ".jpeg") || str_eq_ci(e, ".png") || str_eq_ci(e, ".gif")
        || str_eq_ci(e, ".bmp")
}

/// The supported image file formats, each selected by a filename extension.
#[derive(Clone, Copy, PartialEq, Eq, Structural, Debug)]
pub enum ImgFormat {
    Png,
    Jpeg,
    Bmp,
    Gif,
}

/// The format that a filename's extension selects, if any.
pub open spec fn format_of_spec(f: Seq<char>) -> Option<ImgFormat> {
    let e = ext_spec(f);
    if seq_eq_ci(e, ".png"@) {
        Some(ImgFormat::Png)
    } else if seq_eq_ci(e, ".jpg"@) || seq_eq_ci(e, ".jpeg"@) {
        Some(ImgFormat::Jpeg)
    } else if seq_eq_ci(e, ".bmp"@) {
        Some(ImgFormat::Bmp)
    } else if seq_eq_ci(e, ".gif"@) {
        Some(ImgFormat::Gif)
    } else {
        None
    }
}

/// Returns the format that the filename's extension selects, if any.
pub fn format_of(filename: &str) -> (r: Option<ImgFormat>)
    ensures
        r == format_of_spec(filename@),
{
    let e = extension(filename);
    if str_eq_ci(e, ".png") {
        Some(ImgFormat::Png)
    } else if str_eq_ci(e, ".jpg") || str_eq_ci(e, ".jpeg") {
        Some(ImgFormat::Jpeg)
    } else if str_eq_ci(e, ".bmp") {
        Some(ImgFormat::Bmp)
    } else if str_eq_ci(e, ".gif") {
        Some(ImgFormat::Gif)
    } else {
        None
    }
}

/// The allow-list and the dispatch table agree: a filename passes the
/// extension check exactly when some encoder is selected for it, so a
/// "valid but unsupported" output format cannot arise.
pub proof fn lemma_allow_list_matches_dispatch(f: Seq<char>)
    ensures
        valid_ext_spec(f) <==> format_of_spec(f) is Some,
{
}

/// A value forced into the closed range `[lo, hi]`.
pub open spec fn clamp_spec(v: u8, lo: u8, hi: u8) -> u8 {
    if v < lo {
        lo
    } else if v > hi {
        hi
    } else {
        v
    }
}

/// Forces `v` into the closed range `[lo, hi]`.
pub fn clamp_u8(v: u8, lo: u8, hi: u8) -> (r: u8)
    requires
        lo <= hi,
    ensures
        r == clamp_spec(v, lo, hi),
{
    if v < lo {
        lo
    } else if v > hi {
        hi
    } else {
        v
    }
}

/// Clamping is total and lands in the range: every input, however far out,
/// is mapped into `[lo, hi]`.
pub proof fn lemma_clamp_in_range(v: u8, lo: u8, hi: u8)
    requires
        lo <= hi,
    ensures
        lo <= clamp_spec(v, lo, hi) <= hi,
        lo <= v <= hi ==> clamp_spec(v, lo, hi) == v,
{
}

/// Clamping is idempotent: clamping an already clamped value changes nothing.
pub proof fn lemma_clamp_idempotent(v: u8, lo: u8, hi: u8)
    requires
        lo <= hi,
    ensures
        clamp_spec(clamp_spec(v, lo, hi), lo, hi) == clamp_spec(v, lo, hi),
{
}

} // verus!

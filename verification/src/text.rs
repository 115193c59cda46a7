//! Text captured from the dialog tool: decoding its bytes and trimming
//! the white space around them.

use vstd::prelude::*;
use vstd::utf8::{decode_utf8, valid_utf8};

verus! {

/// The text that lossy UTF-8 decoding makes of a byte sequence: valid
/// parts decode as they are, and each invalid part becomes U+FFFD.
pub uninterp spec fn lossy_text(bytes: Seq<u8>) -> Seq<char>;

/// The characters with the Unicode property `White_Space`.
pub open spec fn is_white_space(c: char) -> bool {
    let u = c as u32;
    ||| 0x09 <= u <= 0x0D
    ||| u == 0x20
    ||| u == 0x85
    ||| u == 0xA0
    ||| u == 0x1680
    ||| 0x2000 <= u <= 0x200A
    ||| u == 0x2028
    ||| u == 0x2029
    ||| u == 0x202F
    ||| u == 0x205F
    ||| u == 0x3000
}

/// How many white-space characters stand at the front of `s` before the
/// first character of another kind.
pub open spec fn leading_white_space(s: Seq<char>) -> nat
    decreases s.len(),
{
    if s.len() > 0 && is_white_space(s[0]) {
        1 + leading_white_space(s.drop_first())
    } else {
        0
    }
}

/// How many white-space characters stand at the end of `s` after the
/// last character of another kind.
pub open spec fn trailing_white_space(s: Seq<char>) -> nat
    decreases s.len(),
{
    if s.len() > 0 && is_white_space(s.last()) {
        1 + trailing_white_space(s.drop_last())
    } else {
        0
    }
}

/// Where the trimmed text begins in `s`.
pub open spec fn trim_start(s: Seq<char>) -> int {
    leading_white_space(s) as int
}

/// Where the trimmed text ends in `s` (one past its last character).
pub open spec fn trim_end(s: Seq<char>) -> int {
    s.len() - trailing_white_space(s.skip(trim_start(s)))
}

/// `s` without the white space at its front and at its end.
pub open spec fn trimmed(s: Seq<char>) -> Seq<char> {
    s.subrange(trim_start(s), trim_end(s))
}

/// The leading run lies inside `s`, holds white space only, and stops at
/// a character of another kind or at the end.
pub proof fn lemma_leading_white_space(s: Seq<char>)
    ensures
        leading_white_space(s) <= s.len(),
        forall|i: int| 0 <= i < leading_white_space(s) ==> is_white_space(#[trigger] s[i]),
        leading_white_space(s) < s.len() ==> !is_white_space(s[leading_white_space(s) as int]),
    decreases s.len(),
{
    if s.len() > 0 && is_white_space(s[0]) {
        let rest = s.drop_first();
        lemma_leading_white_space(rest);
        assert forall|i: int| 0 <= i < leading_white_space(s) implies is_white_space(
            #[trigger] s[i],
        ) by {
            if i > 0 {
                assert(s[i] == rest[i - 1]);
            }
        }
        if leading_white_space(s) < s.len() {
            assert(s[leading_white_space(s) as int] == rest[leading_white_space(rest) as int]);
        }
    }
}

/// The trailing run lies inside `s`, holds white space only, and is
/// preceded by a character of another kind or by nothing.
pub proof fn lemma_trailing_white_space(s: Seq<char>)
    ensures
        trailing_white_space(s) <= s.len(),
        forall|i: int|
            s.len() - trailing_white_space(s) <= i < s.len() ==> is_white_space(#[trigger] s[i]),
        trailing_white_space(s) < s.len() ==> !is_white_space(
            s[s.len() - trailing_white_space(s) - 1],
        ),
    decreases s.len(),
{
    if s.len() > 0 && is_white_space(s.last()) {
        let rest = s.drop_last();
        lemma_trailing_white_space(rest);
        assert forall|i: int|
            s.len() - trailing_white_space(s) <= i < s.len() implies is_white_space(
            #[trigger] s[i],
        ) by {
            if i < s.len() - 1 {
                assert(s[i] == rest[i]);
            }
        }
        if trailing_white_space(s) < s.len() {
            assert(s[s.len() - trailing_white_space(s) - 1] == rest[rest.len()
                - trailing_white_space(rest) - 1]);
        }
    }
}

/// Trimming keeps one stretch of `s`: all that stands before it and all
/// that stands after it is white space, and where anything is kept, its
/// first and its last character are not.
pub proof fn lemma_trimmed_is_core(s: Seq<char>)
    ensures
        0 <= trim_start(s) <= trim_end(s) <= s.len(),
        trimmed(s) == s.subrange(trim_start(s), trim_end(s)),
        forall|i: int| 0 <= i < trim_start(s) ==> is_white_space(#[trigger] s[i]),
        forall|i: int| trim_end(s) <= i < s.len() ==> is_white_space(#[trigger] s[i]),
        trim_start(s) < trim_end(s) ==> !is_white_space(s[trim_start(s)]) && !is_white_space(
            s[trim_end(s) - 1],
        ),
{
    lemma_leading_white_space(s);
    let a = trim_start(s);
    let tail = s.skip(a);
    lemma_trailing_white_space(tail);
    assert forall|i: int| trim_end(s) <= i < s.len() implies is_white_space(#[trigger] s[i]) by {
        assert(s[i] == tail[i - a]);
    }
    if a < trim_end(s) {
        assert(tail[tail.len() - trailing_white_space(tail) - 1] == s[trim_end(s) - 1]);
    }
}

/// Trimmed text neither begins nor ends with white space.
pub proof fn lemma_trimmed_has_clean_ends(s: Seq<char>)
    ensures
        trimmed(s).len() > 0 ==> !is_white_space(trimmed(s).first()) && !is_white_space(
            trimmed(s).last(),
        ),
{
    lemma_trimmed_is_core(s);
}

/// Text that neither begins nor ends with white space is its own trimmed
/// form.
pub proof fn lemma_trimmed_keeps_clean_text(s: Seq<char>)
    requires
        s.len() > 0 ==> !is_white_space(s.first()) && !is_white_space(s.last()),
    ensures
        trimmed(s) == s,
{
    assert(s.skip(0) =~= s);
    assert(trimmed(s) =~= s);
}

/// Trimming twice gives what trimming once gives.
pub proof fn lemma_trimmed_idempotent(s: Seq<char>)
    ensures
        trimmed(trimmed(s)) == trimmed(s),
{
    lemma_trimmed_has_clean_ends(s);
    lemma_trimmed_keeps_clean_text(trimmed(s));
}

/// Text made of white space alone trims to nothing, and only such text
/// does.
pub proof fn lemma_trimmed_empty_iff_blank(s: Seq<char>)
    ensures
        trimmed(s).len() == 0 <==> (forall|i: int| 0 <= i < s.len() ==> is_white_space(
            #[trigger] s[i],
        )),
{
    lemma_trimmed_is_core(s);
    if trimmed(s).len() != 0 {
        assert(!is_white_space(s[trim_start(s)]));
    }
}

/// Decodes bytes as `String::from_utf8_lossy` does. The result is a
/// function of the bytes alone; for valid UTF-8 it is the text that the
/// bytes encode.
#[verifier::external_body]
pub(crate) fn decode_lossy(bytes: &[u8]) -> (text: String)
    ensures
        text@ == lossy_text(bytes@),
        valid_utf8(bytes@) ==> text@ == decode_utf8(bytes@),
{
    String::from_utf8_lossy(bytes).into_owned()
}

/// Trims text as `str::trim` does: the result is the stretch of `s`
/// between its leading and its trailing white space.
#[verifier::external_body]
pub(crate) fn trim_str(s: &str) -> (core: &str)
    ensures
        core@ == trimmed(s@),
{
    s.trim()
}

} // verus!

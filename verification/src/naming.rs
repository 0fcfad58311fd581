//! Output file naming: collection names are lowercased and stripped of
//! whitespace before the export suffix is attached.

use vstd::prelude::*;
use vstd::string::StrSliceExecFns;

verus! {

/// What `str::to_lowercase` returns for a character sequence.
pub uninterp spec fn lower_of(s: Seq<char>) -> Seq<char>;

/// Whether `char::is_whitespace` holds of a character.
pub uninterp spec fn spec_is_whitespace(c: char) -> bool;

/// Relies on str::to_lowercase: the result depends on the characters alone.
#[verifier::external_body]
fn lowercase(s: &str) -> (r: String)
    ensures
        r@ == lower_of(s@),
{
    s.to_lowercase()
}

/// Relies on char::is_whitespace: a property of the character alone.
#[verifier::external_body]
fn char_is_whitespace(c: char) -> (r: bool)
    ensures
        r == spec_is_whitespace(c),
{
    c.is_whitespace()
}

/// Relies on String::push: appends the given character to the string.
pub assume_specification[ String::push ](s: &mut String, c: char)
    ensures
        final(s)@ == old(s)@.push(c),
;

/// The first `i` characters of `s` with whitespace dropped.
pub open spec fn strip_whitespace_to(s: Seq<char>, i: int) -> Seq<char>
    decreases i,
{
    if i <= 0 {
        Seq::empty()
    } else {
        strip_whitespace_to(s, i - 1) + (if spec_is_whitespace(s[i - 1]) {
            Seq::empty()
        } else {
            seq![s[i - 1]]
        })
    }
}

/// `s` with all whitespace characters dropped.
pub open spec fn strip_whitespace(s: Seq<char>) -> Seq<char> {
    strip_whitespace_to(s, s.len() as int)
}

/// The cleaned file name for a collection export: the collection name
/// lowercased with whitespace removed, an underscore, and the export
/// suffix.  The caller joins it onto the destination folder.
pub fn format_filename(name: &str, extension: &str) -> (r: String)
    ensures
        r@ == strip_whitespace(lower_of(name@)) + seq!['_'] + extension@,
{
    let lowered = lowercase(name);
    let lowered_str = lowered.as_str();
    let n = lowered_str.unicode_len();
    let mut cleaned = String::new();
    let mut i: usize = 0;
    while i < n
        invariant
            0 <= i <= n,
            n == lowered_str@.len(),
            lowered_str@ == lower_of(name@),
            cleaned@ == strip_whitespace_to(lower_of(name@), i as int),
        decreases n - i,
    {
        let c = lowered_str.get_char(i);
        if !char_is_whitespace(c) {
            cleaned.push(c);
        }
        i = i + 1;
    }
    cleaned.push('_');
    let mut result = cleaned;
    result.append(extension);
    proof {
        assert(result@ =~= strip_whitespace(lower_of(name@)) + seq!['_'] + extension@);
    }
    result
}

} // verus!

//! URL slugs made from titles.
//!
//! A slug is the lowercase form of a title with every character that is
//! neither alphanumeric nor white space removed, and each run of white space
//! between words replaced by one `-`.

use crate::text::{chars_of, push_char};
use vstd::prelude::*;

verus! {

/// The lowercase form of a text, as Unicode defines it.
pub uninterp spec fn lower_of(s: Seq<char>) -> Seq<char>;

/// Whether a character is alphabetic or numeric, as Unicode defines it.
pub uninterp spec fn alphanumeric(c: char) -> bool;

/// The characters with the Unicode White_Space property.
pub open spec fn white_space(c: char) -> bool {
    let u = c as u32;
    ||| 0x9 <= u <= 0xD
    ||| u == 0x20
    ||| u == 0x85
    ||| u == 0xA0
    ||| u == 0x1680
    ||| 0x2000 <= u <= 0x200A
    ||| u == 0x2028
    ||| u == 0x2029
    ||| u == 0x202F
    ||| u == 0x205F
    ||| u == 0x3000
}

/// Relies on `str::to_lowercase`: the result depends on the characters alone.
#[verifier::external_body]
pub(crate) fn lowercase(s: &str) -> (r: String)
    ensures
        r@ == lower_of(s@),
{
    s.to_lowercase()
}

/// Relies on `char::is_alphanumeric`: alphabetic or numeric in Unicode.
#[verifier::external_body]
fn is_alphanumeric(c: char) -> (r: bool)
    ensures
        r == alphanumeric(c),
{
    c.is_alphanumeric()
}

/// Whether `c` has the Unicode White_Space property, as `char::is_whitespace` answers.
fn is_whitespace(c: char) -> (r: bool)
    ensures
        r == white_space(c),
{
    let u = c as u32;
    (0x9 <= u && u <= 0xD) || u == 0x20 || u == 0x85 || u == 0xA0 || u == 0x1680 || (0x2000 <= u && u
        <= 0x200A) || u == 0x2028 || u == 0x2029 || u == 0x202F || u == 0x205F || u == 0x3000
}

/// Reads `cs` from left to right: the slug so far, and whether white space
/// has been seen since its last character.
pub open spec fn slug_scan(cs: Seq<char>) -> (Seq<char>, bool)
    decreases cs.len(),
{
    if cs.len() == 0 {
        (Seq::empty(), false)
    } else {
        let (out, gap) = slug_scan(cs.drop_last());
        let c = cs.last();
        if alphanumeric(c) {
            if gap && out.len() > 0 {
                (out + seq!['-', c], false)
            } else {
                (out.push(c), false)
            }
        } else if white_space(c) {
            (out, true)
        } else {
            (out, gap)
        }
    }
}

/// The slug of `text`: its lowercase words, with other characters dropped,
/// joined by `-`.
pub open spec fn slug_of(text: Seq<char>) -> Seq<char> {
    slug_scan(lower_of(text)).0
}

/// The slug of `text`.
pub fn slugify(text: &str) -> (r: String)
    ensures
        r@ == slug_of(text@),
{
    let lower = lowercase(text);
    slug_from_lowercase(lower.as_str())
}

/// The slug of a text that is already in lowercase: its words, with other
/// characters dropped, joined by `-`.
pub fn slug_from_lowercase(lower: &str) -> (r: String)
    ensures
        r@ == slug_scan(lower@).0,
{
    let cs = chars_of(lower);
    let mut out = String::new();
    let mut gap = false;
    let mut started = false;
    let mut i: usize = 0;
    while i < cs.len()
        invariant
            i <= cs@.len(),
            cs@ == lower@,
            slug_scan(cs@.take(i as int)) == (out@, gap),
            started == (out@.len() > 0),
        decreases cs@.len() - i,
    {
        let c = cs[i];
        assert(cs@.take(i + 1).drop_last() =~= cs@.take(i as int));
        if is_alphanumeric(c) {
            if gap && started {
                push_char(&mut out, '-');
            }
            push_char(&mut out, c);
            gap = false;
            started = true;
        } else if is_whitespace(c) {
            gap = true;
        }
        i = i + 1;
    }
    assert(cs@.take(cs@.len() as int) =~= cs@);
    out
}

/// The slug of a post title, as used for a post's address.
pub fn generate_slug(title: &str) -> (r: String)
    ensures
        r@ == slug_of(title@),
{
    slugify(title)
}

} // verus!

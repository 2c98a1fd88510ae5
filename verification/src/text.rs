//! Turning the raw diagnostics of the driver into text that can be shown.

use vstd::prelude::*;
use vstd::string::*;

verus! {

/// The text that `String::from_utf8_lossy` makes of a byte sequence.
pub uninterp spec fn lossy_text(bytes: Seq<u8>) -> Seq<char>;

/// Whether a character is white space, as Unicode defines it (`White_Space`).
pub open spec fn is_space(c: char) -> bool {
    let u = c as u32;
    ||| 0x09 <= u <= 0x0D
    ||| u == 0x20
    ||| u == 0x85
    ||| u == 0xA0
    ||| u == 0x1680
    ||| 0x2000 <= u <= 0x200A
    ||| u == 0x2028
    ||| u == 0x2029
    ||| u == 0x202F
    ||| u == 0x205F
    ||| u == 0x3000
}

/// A text without the white space at its end.
pub open spec fn trim_end(s: Seq<char>) -> Seq<char>
    decreases s.len(),
{
    if s.len() > 0 && is_space(s.last()) {
        trim_end(s.drop_last())
    } else {
        s
    }
}

/// A text without its NUL characters.
pub open spec fn without_nul(s: Seq<char>) -> Seq<char> {
    s.filter(|c: char| c != '\0')
}

/// The readable form of a diagnostics buffer: decoded, freed of the NUL
/// padding of the buffer, and without trailing white space.
pub open spec fn clean_log(bytes: Seq<u8>) -> Seq<char> {
    trim_end(without_nul(lossy_text(bytes)))
}

/// Calls `String::from_utf8_lossy`, which decodes the bytes as UTF-8 and puts
/// U+FFFD in place of each malformed sequence. Nothing is claimed of the
/// result but that it is a function of the bytes alone.
#[verifier::external_body]
fn decode_lossy(bytes: &Vec<u8>) -> (text: String)
    ensures
        text@ == lossy_text(bytes@),
{
    String::from_utf8_lossy(bytes).into_owned()
}

/// Tells white space from other characters.
pub fn is_whitespace(c: char) -> (r: bool)
    ensures
        r == is_space(c),
{
    let u: u32 = c as u32;
    (0x09 <= u && u <= 0x0D) || u == 0x20 || u == 0x85 || u == 0xA0 || u == 0x1680 || (0x2000 <= u
        && u <= 0x200A) || u == 0x2028 || u == 0x2029 || u == 0x202F || u == 0x205F || u == 0x3000
}

/// Copies a text, leaving out every NUL character.
pub fn strip_nul(text: &str) -> (kept: String)
    ensures
        kept@ == without_nul(text@),
{
    let n = text.unicode_len();
    let mut kept = String::new();
    let mut i: usize = 0;
    while i < n
        invariant
            i <= n,
            n == text@.len(),
            kept@ == without_nul(text@.take(i as int)),
        decreases n - i,
    {
        let c = text.get_char(i);
        proof {
            reveal(Seq::filter);
            assert(text@.take(i + 1).drop_last() =~= text@.take(i as int));
            assert(text@.take(i + 1).last() == c);
        }
        if c != '\0' {
            let one = text.substring_char(i, i + 1);
            assert(one@ =~= seq![c]);
            kept.append(one);
            assert(kept@ =~= without_nul(text@.take(i as int)).push(c));
        }
        i += 1;
    }
    assert(text@.take(n as int) =~= text@);
    kept
}

/// Copies a text up to its last character that is not white space.
pub fn strip_trailing_space(text: &str) -> (kept: String)
    ensures
        kept@ == trim_end(text@),
{
    let mut end = text.unicode_len();
    assert(text@.take(end as int) =~= text@);
    while end > 0 && is_whitespace(text.get_char(end - 1))
        invariant
            end <= text@.len(),
            trim_end(text@) == trim_end(text@.take(end as int)),
        decreases end,
    {
        assert(text@.take(end as int).drop_last() =~= text@.take(end - 1));
        end -= 1;
    }
    String::from_str(text.substring_char(0, end))
}

/// Makes the diagnostics that the driver wrote into a buffer readable.
pub fn info_log_to_str(info_log: &Vec<u8>) -> (text: String)
    ensures
        text@ == clean_log(info_log@),
{
    let decoded = decode_lossy(info_log);
    let kept = strip_nul(decoded.as_str());
    strip_trailing_space(kept.as_str())
}

} // verus!

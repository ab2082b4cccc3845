//! Trigger-phrase matching for the chat layer: whether a message asks the
//! question this bot answers.
//!
//! Matching is case-insensitive; case folding is delegated to the standard
//! library, and the search over the folded text is verified here.

use vstd::prelude::*;

use crate::codecs::bytes_eq;

verus! {

/// The bytes of `str::to_lowercase` applied to `s`, encoded as UTF-8.  The
/// result depends on the characters alone.
pub uninterp spec fn lower_bytes_of(s: Seq<char>) -> Seq<u8>;

/// Relies on str::to_lowercase: Unicode lowercase of the text, a function of
/// its characters alone; an empty text stays empty.
#[verifier::external_body]
fn lowercase_bytes(text: &str) -> (lowered: Vec<u8>)
    ensures
        lowered@ == lower_bytes_of(text@),
        text@.len() == 0 ==> lowered@.len() == 0,
{
    text.to_lowercase().into_bytes()
}

/// Whether `needle` occurs contiguously inside `hay`.
pub open spec fn contains_subseq(hay: Seq<u8>, needle: Seq<u8>) -> bool {
    exists|k: int| 0 <= k && k + needle.len() <= hay.len() && #[trigger] hay.subrange(
        k,
        k + needle.len(),
    ) == needle
}

/// The trigger phrase, as lowercase ASCII bytes ("alguien despacho").
pub open spec fn trigger_phrase() -> Seq<u8> {
    seq![
        97u8, 108u8, 103u8, 117u8, 105u8, 101u8, 110u8, 32u8, 100u8, 101u8, 115u8, 112u8, 97u8,
        99u8, 104u8, 111u8,
    ]
}

fn find_subseq(hay: &[u8], needle: &[u8]) -> (found: bool)
    requires
        needle@.len() > 0,
    ensures
        found == contains_subseq(hay@, needle@),
{
    if needle.len() > hay.len() {
        return false;
    }
    let bound = hay.len() - needle.len();
    let mut k: usize = 0;
    while k <= bound
        invariant
            0 < needle@.len() <= hay@.len(),
            hay@.len() <= usize::MAX,
            bound == hay@.len() - needle@.len(),
            k <= bound + 1,
            forall|k2: int| 0 <= k2 < k ==> #[trigger] hay@.subrange(k2, k2 + needle@.len())
                != needle@,
        decreases bound + 1 - k,
    {
        if bytes_eq(&hay[k..k + needle.len()], needle) {
            assert(hay@.subrange(k as int, k + needle@.len()) == needle@);
            return true;
        }
        k += 1;
    }
    false
}

/// Whether a message asks the question the bot answers: the text, folded to
/// lowercase, contains the trigger phrase.
pub fn is_alguien_despacho_text(text: String) -> (found: bool)
    ensures
        found == contains_subseq(lower_bytes_of(text@), trigger_phrase()),
{
    let lowered = lowercase_bytes(text.as_str());
    let needle: Vec<u8> = vec![
        97, 108, 103, 117, 105, 101, 110, 32, 100, 101, 115, 112, 97, 99, 104, 111,
    ];
    proof {
        assert(needle@ =~= trigger_phrase());
    }
    find_subseq(lowered.as_slice(), needle.as_slice())
}

} // verus!

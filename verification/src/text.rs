//! Assembling transcript text: joining the recognizer's output segments
//! into one transcript, and extending an accumulated transcript with newly
//! transcribed text.

use vstd::prelude::*;

verus! {

/// What `str::trim` returns: the text with leading and trailing whitespace
/// removed.
pub uninterp spec fn trimmed(s: Seq<char>) -> Seq<char>;

/// Relies on str::trim: removes leading and trailing whitespace — a function
/// of the characters alone, and never longer than its input.
#[verifier::external_body]
fn trim_text(s: &str) -> (r: String)
    ensures
        r@ == trimmed(s@),
        r@.len() <= s@.len(),
{
    s.trim().to_owned()
}

/// The concatenation of a sequence of transcript segments, in order, with
/// nothing inserted between them.
pub open spec fn spec_join(segments: Seq<Seq<char>>) -> Seq<char>
    decreases segments.len(),
{
    if segments.len() == 0 {
        Seq::empty()
    } else {
        spec_join(segments.drop_last()) + segments.last()
    }
}

/// Joins the text of the recognition output's segments into the full
/// transcript.
pub fn join_segments(segments: &Vec<String>) -> (r: String)
    ensures
        r@ == spec_join(segments@.map_values(|s: String| s@)),
{
    let mut full = String::new();
    let mut i: usize = 0;
    while i < segments.len()
        invariant
            i <= segments@.len(),
            full@ == spec_join(segments@.map_values(|s: String| s@).subrange(0, i as int)),
        decreases segments@.len() - i,
    {
        full.append(segments[i].as_str());
        proof {
            let views = segments@.map_values(|s: String| s@);
            assert(views.subrange(0, i as int + 1).drop_last() =~= views.subrange(0, i as int));
            assert(views.subrange(0, i as int + 1).last() == views[i as int]);
        }
        i = i + 1;
    }
    proof {
        let views = segments@.map_values(|s: String| s@);
        assert(views.subrange(0, segments@.len() as int) =~= views);
    }
    full
}

/// Extends the accumulated transcript with newly transcribed text. The new
/// text is trimmed (the recognizer sometimes pads it), and appended as a
/// fresh paragraph — except onto an empty transcript, which it simply
/// becomes, so the transcript never starts with a paragraph break.
pub fn extend_transcription(existing: &str, new_text: &str) -> (r: String)
    ensures
        existing@.len() == 0 ==> r@ == trimmed(new_text@),
        existing@.len() > 0 ==> r@ == existing@ + "\n\n"@ + trimmed(new_text@),
{
    let addition = trim_text(new_text);
    if existing.is_empty() {
        addition
    } else {
        let mut full = String::from_str(existing);
        full.append("\n\n");
        full.append(addition.as_str());
        full
    }
}

} // verus!

//! Response formatting: splitting a generation payload into outbound message
//! segments under the platform's message-length ceiling.

use vstd::prelude::*;

use crate::text::views_of;

verus! {

/// The platform's message-length ceiling, in characters.
pub const MESSAGE_LIMIT: usize = 2000;

/// The fixed offset at which an oversized payload is cut in two.
pub const SPLIT_POINT: usize = 1999;

/// The segments a payload is posted as: the payload itself when it is under
/// the ceiling, and otherwise exactly two raw cuts at the fixed offset. The
/// cut is a plain character-offset split: no trimming and no word-boundary
/// awareness. A payload of 2 * `SPLIT_POINT` characters or more yields a
/// second segment that itself exceeds the ceiling; the split is deliberately
/// not a general chunking loop.
pub open spec fn format_spec(text: Seq<char>) -> Seq<Seq<char>> {
    if text.len() < MESSAGE_LIMIT as int {
        seq![text]
    } else {
        seq![
            text.subrange(0, SPLIT_POINT as int),
            text.subrange(SPLIT_POINT as int, text.len() as int),
        ]
    }
}

/// The concatenation of a sequence of segments, in order.
pub open spec fn concat_segs(segs: Seq<Seq<char>>) -> Seq<char>
    decreases segs.len(),
{
    if segs.len() == 0 {
        Seq::empty()
    } else {
        segs.first() + concat_segs(segs.drop_first())
    }
}

/// A payload under the ceiling is passed through as its own single segment.
pub proof fn lemma_format_short(text: Seq<char>)
    requires
        text.len() < MESSAGE_LIMIT as int,
    ensures
        format_spec(text) =~= seq![text],
{
}

/// A payload at or over the ceiling is cut into exactly two segments, the
/// first of `SPLIT_POINT` characters, the second holding the rest.
pub proof fn lemma_format_long(text: Seq<char>)
    requires
        text.len() >= MESSAGE_LIMIT as int,
    ensures
        format_spec(text).len() == 2,
        format_spec(text)[0].len() == SPLIT_POINT as int,
        format_spec(text)[1].len() == text.len() - SPLIT_POINT as int,
        format_spec(text)[0] + format_spec(text)[1] =~= text,
{
}

/// The segments of any payload, concatenated in order, reconstruct the
/// payload exactly: no character is lost or duplicated.
pub proof fn lemma_format_reconstructs(text: Seq<char>)
    ensures
        concat_segs(format_spec(text)) =~= text,
{
    let segs = format_spec(text);
    assert(concat_segs(Seq::<Seq<char>>::empty()) =~= Seq::<char>::empty());
    if text.len() < MESSAGE_LIMIT as int {
        assert(segs.drop_first() =~= Seq::<Seq<char>>::empty());
        assert(concat_segs(segs) == segs.first() + concat_segs(segs.drop_first()));
        assert(concat_segs(segs) =~= text);
    } else {
        let rest = segs.drop_first();
        assert(rest.first() == segs[1]);
        assert(rest.drop_first() =~= Seq::<Seq<char>>::empty());
        assert(concat_segs(rest) == rest.first() + concat_segs(rest.drop_first()));
        assert(concat_segs(rest) =~= segs[1]);
        assert(concat_segs(segs) == segs.first() + concat_segs(rest));
        assert(concat_segs(segs) =~= segs[0] + segs[1]);
        assert(segs[0] + segs[1] =~= text);
    }
}

/// Splits a payload into the outbound segments it is posted as.
pub fn format(text: String) -> (segments: Vec<String>)
    ensures
        views_of(segments@) =~= format_spec(text@),
        text@.len() < MESSAGE_LIMIT as int ==> segments@.len() == 1 && segments@[0]@ == text@,
        text@.len() >= MESSAGE_LIMIT as int ==> segments@.len() == 2 && segments@[0]@
            == text@.subrange(0, SPLIT_POINT as int) && segments@[1]@ == text@.subrange(
            SPLIT_POINT as int,
            text@.len() as int,
        ),
{
    let n: usize = text.as_str().unicode_len();
    if n < MESSAGE_LIMIT {
        let segments = vec![text];
        proof {
            assert(views_of(segments@) =~= format_spec(text@));
        }
        segments
    } else {
        let head = text.as_str().substring_char(0, SPLIT_POINT).to_owned();
        let tail = text.as_str().substring_char(SPLIT_POINT, n).to_owned();
        let segments = vec![head, tail];
        proof {
            assert(views_of(segments@) =~= format_spec(text@));
        }
        segments
    }
}

} // verus!

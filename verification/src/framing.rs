//! The framing of a streamed response body: frames are separated by line
//! feeds, and a frame is never empty, so the blank lines that set events
//! apart separate frames as single line feeds do.

use vstd::prelude::*;

verus! {

/// The byte that ends a frame.
pub const LINE_FEED: u8 = 10;

/// The frames that `body` has completed, and the bytes of the frame that is
/// still open at its end.
pub open spec fn split_lines(body: Seq<u8>) -> (Seq<Seq<u8>>, Seq<u8>)
    decreases body.len(),
{
    if body.len() == 0 {
        (Seq::empty(), Seq::empty())
    } else {
        let (complete, open) = split_lines(body.drop_last());
        if body.last() != LINE_FEED {
            (complete, open.push(body.last()))
        } else if open.len() == 0 {
            (complete, open)
        } else {
            (complete.push(open), Seq::empty())
        }
    }
}

/// The frames of a whole body: those it completed, and the one left open at
/// its end if that holds any byte.
pub open spec fn frames_of(body: Seq<u8>) -> Seq<Seq<u8>> {
    let (complete, open) = split_lines(body);
    if open.len() == 0 {
        complete
    } else {
        complete.push(open)
    }
}

/// The byte sequences that a list of frames holds.
pub open spec fn frame_bytes(frames: Seq<Vec<u8>>) -> Seq<Seq<u8>> {
    frames.map_values(|frame: Vec<u8>| frame@)
}

/// Whether `frame` can be a frame: it holds a byte, and no line feed.
pub open spec fn is_frame(frame: Seq<u8>) -> bool {
    frame.len() > 0 && no_line_feed(frame)
}

/// Whether `bytes` hold no line feed.
pub open spec fn no_line_feed(bytes: Seq<u8>) -> bool {
    forall|k: int| 0 <= k < bytes.len() ==> bytes[k] != LINE_FEED
}

/// Whether each of `frames` can be a frame.
pub open spec fn all_frames(frames: Seq<Seq<u8>>) -> bool {
    forall|i: int| 0 <= i < frames.len() ==> is_frame(#[trigger] frames[i])
}

/// No frame is empty and none holds a line feed.
pub proof fn lemma_frames_are_frames(body: Seq<u8>)
    ensures
        all_frames(split_lines(body).0),
        no_line_feed(split_lines(body).1),
        all_frames(frames_of(body)),
    decreases body.len(),
{
    if body.len() > 0 {
        lemma_frames_are_frames(body.drop_last());
        let (complete, open) = split_lines(body.drop_last());
        let (complete_now, open_now) = split_lines(body);
        if body.last() != LINE_FEED {
            assert forall|k: int| 0 <= k < open_now.len() implies open_now[k] != LINE_FEED by {
                if k < open.len() {
                    assert(open_now[k] == open[k]);
                }
            }
        } else if open.len() > 0 {
            assert forall|i: int| 0 <= i < complete_now.len() implies is_frame(
                #[trigger] complete_now[i],
            ) by {
                if i < complete.len() {
                    assert(complete_now[i] == complete[i]);
                }
            }
        }
    }
    let (complete, open) = split_lines(body);
    if open.len() > 0 {
        assert forall|i: int| 0 <= i < frames_of(body).len() implies is_frame(
            #[trigger] frames_of(body)[i],
        ) by {
            if i < complete.len() {
                assert(frames_of(body)[i] == complete[i]);
            }
        }
    }
}

/// A body that is itself a frame is its only frame.
pub proof fn lemma_single_frame(body: Seq<u8>)
    requires
        is_frame(body),
    ensures
        frames_of(body) == seq![body],
{
    lemma_open_frame(body);
    assert(Seq::<Seq<u8>>::empty().push(body) =~= seq![body]);
}

/// A body without a line feed completes no frame and leaves itself open.
pub proof fn lemma_open_frame(body: Seq<u8>)
    requires
        no_line_feed(body),
    ensures
        split_lines(body) == (Seq::<Seq<u8>>::empty(), body),
    decreases body.len(),
{
    if body.len() > 0 {
        lemma_open_frame(body.drop_last());
        assert(body.drop_last().push(body.last()) =~= body);
    } else {
        assert(body =~= Seq::<u8>::empty());
    }
}

/// A line feed sets two parts of a body apart: the frames of the whole are
/// the frames of what stands before it, then those of what stands after it.
pub proof fn lemma_line_feed_separates(before: Seq<u8>, after: Seq<u8>)
    ensures
        split_lines(before.push(LINE_FEED) + after) == (
            frames_of(before) + split_lines(after).0,
            split_lines(after).1,
        ),
        frames_of(before.push(LINE_FEED) + after) == frames_of(before) + frames_of(after),
    decreases after.len(),
{
    let head = before.push(LINE_FEED);
    let whole = head + after;
    if after.len() == 0 {
        assert(whole =~= head);
        assert(head.drop_last() =~= before);
        assert(frames_of(before) + Seq::<Seq<u8>>::empty() =~= frames_of(before));
    } else {
        lemma_line_feed_separates(before, after.drop_last());
        assert(whole.drop_last() =~= head + after.drop_last());
        assert(whole.last() == after.last());
        let (complete, open) = split_lines(after.drop_last());
        if after.last() == LINE_FEED && open.len() > 0 {
            assert((frames_of(before) + complete).push(open) =~= frames_of(before) + complete.push(
                open,
            ));
        }
    }
    let (complete, open) = split_lines(after);
    if open.len() > 0 {
        assert((frames_of(before) + complete).push(open) =~= frames_of(before) + complete.push(open));
    }
}

/// The frames of a response body, in order.
pub fn split_frames(body: &[u8]) -> (frames: Vec<Vec<u8>>)
    ensures
        frame_bytes(frames@) == frames_of(body@),
{
    let mut complete: Vec<Vec<u8>> = Vec::new();
    let mut open: Vec<u8> = Vec::new();
    let mut i: usize = 0;
    assert(body@.take(0) =~= Seq::<u8>::empty());
    assert(frame_bytes(complete@) =~= Seq::<Seq<u8>>::empty());
    while i < body.len()
        invariant
            i <= body.len(),
            (frame_bytes(complete@), open@) == split_lines(body@.take(i as int)),
        decreases body.len() - i,
    {
        let byte = body[i];
        let ghost done = frame_bytes(complete@);
        proof {
            assert(body@.take(i + 1).drop_last() =~= body@.take(i as int));
            assert(body@.take(i + 1).last() == byte);
        }
        if byte != LINE_FEED {
            open.push(byte);
        } else if open.len() > 0 {
            let ghost bytes = open@;
            complete.push(open);
            open = Vec::new();
            assert(frame_bytes(complete@) =~= done.push(bytes));
        }
        i += 1;
    }
    assert(body@.take(body.len() as int) =~= body@);
    if open.len() > 0 {
        let ghost done = frame_bytes(complete@);
        let ghost bytes = open@;
        complete.push(open);
        assert(frame_bytes(complete@) =~= done.push(bytes));
    }
    complete
}

} // verus!

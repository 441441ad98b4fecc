//! Streaming responses: a finite, forward-only sequence of frames that the
//! consumer pulls one by one. It ends when the backend closes the stream or
//! at the first frame that cannot be decoded, whichever comes first.

use crate::error::Error;
use vstd::prelude::*;

verus! {

/// What the consumer sees of one frame: the decoded element, or a `Decode`
/// error with the decoder's message.
pub open spec fn element_of<T>(frame: Result<T, String>) -> Result<T, Error> {
    match frame {
        Ok(value) => Ok(value),
        Err(message) => Err(Error::Decode { message }),
    }
}

/// What the consumer sees of a backend's frames: every element up to and
/// including the first that cannot be decoded, and nothing after that one.
pub open spec fn observed<T>(frames: Seq<Result<T, String>>) -> Seq<Result<T, Error>>
    decreases frames.len(),
{
    if frames.len() == 0 {
        Seq::empty()
    } else if frames[0] is Err {
        seq![element_of(frames[0])]
    } else {
        seq![element_of(frames[0])] + observed(frames.skip(1))
    }
}

/// A backend that sends only well-formed frames and then closes: the consumer
/// sees each of them, in order, and nothing else.
pub proof fn lemma_all_frames_observed<T>(frames: Seq<Result<T, String>>)
    requires
        forall|i: int| 0 <= i < frames.len() ==> (#[trigger] frames[i]) is Ok,
    ensures
        observed(frames).len() == frames.len(),
        forall|i: int|
            0 <= i < frames.len() ==> (#[trigger] observed(frames)[i]) == Ok::<T, Error>(
                frames[i]->Ok_0,
            ),
    decreases frames.len(),
{
    if frames.len() > 0 {
        let rest = frames.skip(1);
        assert forall|i: int| 0 <= i < rest.len() implies (#[trigger] rest[i]) is Ok by {
            assert(rest[i] == frames[i + 1]);
        }
        lemma_all_frames_observed(rest);
        assert forall|i: int| 0 <= i < frames.len() implies (#[trigger] observed(frames)[i]) == Ok::<
            T,
            Error,
        >(frames[i]->Ok_0) by {
            if i > 0 {
                assert(observed(frames)[i] == observed(rest)[i - 1]);
                assert(rest[i - 1] == frames[i]);
            }
        }
    }
}

/// A backend that sends `good` well-formed frames and then a malformed one:
/// the consumer sees the `good` elements, then exactly one `Decode` error,
/// and nothing of what the backend sent after it.
pub proof fn lemma_stream_ends_at_first_error<T>(frames: Seq<Result<T, String>>, good: int)
    requires
        0 <= good < frames.len(),
        forall|i: int| 0 <= i < good ==> (#[trigger] frames[i]) is Ok,
        frames[good] is Err,
    ensures
        observed(frames).len() == good + 1,
        forall|i: int|
            0 <= i < good ==> (#[trigger] observed(frames)[i]) == Ok::<T, Error>(frames[i]->Ok_0),
        observed(frames)[good] == Err::<T, Error>(Error::Decode { message: frames[good]->Err_0 }),
    decreases good,
{
    if good > 0 {
        let rest = frames.skip(1);
        assert forall|i: int| 0 <= i < good - 1 implies (#[trigger] rest[i]) is Ok by {
            assert(rest[i] == frames[i + 1]);
        }
        assert(rest[good - 1] == frames[good]);
        lemma_stream_ends_at_first_error(rest, good - 1);
        assert forall|i: int| 0 <= i < good implies (#[trigger] observed(frames)[i]) == Ok::<
            T,
            Error,
        >(frames[i]->Ok_0) by {
            if i > 0 {
                assert(observed(frames)[i] == observed(rest)[i - 1]);
                assert(rest[i - 1] == frames[i]);
            }
        }
        assert(observed(frames)[good] == observed(rest)[good - 1]);
    }
}

/// The consumer's end of one streaming response.
#[derive(Debug, Clone, Copy, PartialEq, Eq, Structural)]
pub struct FrameStream {
    finished: bool,
}

impl FrameStream {
    /// Whether the sequence has ended.
    pub closed spec fn finished(&self) -> bool {
        self.finished
    }

    /// A stream of which nothing has been read yet.
    pub fn new() -> (stream: FrameStream)
        ensures
            !stream.finished(),
    {
        FrameStream { finished: false }
    }

    /// Whether the sequence has ended.
    pub fn is_finished(&self) -> (b: bool)
        ensures
            b == self.finished(),
    {
        self.finished
    }

    /// Takes the next frame from the backend: the body of the frame decoded,
    /// or the decoder's message. Gives the element that the consumer sees
    /// for it. A frame that cannot be decoded ends the sequence with its
    /// error; after the end no frame gives an element.
    pub fn on_frame<T>(&mut self, frame: Result<T, String>) -> (element: Option<Result<T, Error>>)
        ensures
            old(self).finished() ==> element is None && final(self).finished(),
            !old(self).finished() ==> element == Some(element_of(frame)) && final(self).finished()
                == (frame is Err),
    {
        if self.finished {
            return None;
        }
        match frame {
            Ok(value) => Some(Ok(value)),
            Err(message) => {
                self.finished = true;
                Some(Err(Error::Decode { message }))
            },
        }
    }

    /// The backend closed the stream: the sequence has ended.
    pub fn on_end(&mut self)
        ensures
            final(self).finished(),
    {
        self.finished = true;
    }
}

/// Everything that the consumer sees of a stream whose frames are `frames`,
/// in order, and which the backend then closes.
pub fn collect_frames<T>(frames: Vec<Result<T, String>>) -> (elements: Vec<Result<T, Error>>)
    ensures
        elements@ == observed(frames@),
{
    let ghost all = frames@;
    let mut rest = frames;
    let mut pending: Vec<Result<T, String>> = Vec::new();
    while rest.len() > 0
        invariant
            rest@.len() + pending@.len() == all.len(),
            rest@ == all.take(rest@.len() as int),
            forall|i: int| 0 <= i < pending@.len() ==> pending@[i] == all[all.len() - 1 - i],
        decreases rest@.len(),
    {
        let frame = rest.pop().unwrap();
        pending.push(frame);
        assert(rest@ =~= all.take(rest@.len() as int));
    }
    let mut stream = FrameStream::new();
    let mut elements: Vec<Result<T, Error>> = Vec::new();
    assert(all.skip(0) =~= all);
    assert(elements@ + observed(all) =~= observed(all));
    while pending.len() > 0 && !stream.is_finished()
        invariant
            pending@.len() <= all.len(),
            forall|i: int| 0 <= i < pending@.len() ==> pending@[i] == all[all.len() - 1 - i],
            observed(all) == elements@ + (if stream.finished() {
                Seq::<Result<T, Error>>::empty()
            } else {
                observed(all.skip(all.len() - pending@.len()))
            }),
        decreases pending@.len(),
    {
        let ghost at = all.len() - pending@.len();
        let ghost seen = elements@;
        let frame = pending.pop().unwrap();
        proof {
            assert(frame == all[at]);
            assert(all.skip(at)[0] == all[at]);
            assert(all.skip(at).skip(1) =~= all.skip(at + 1));
        }
        match stream.on_frame(frame) {
            Some(element) => {
                elements.push(element);
                proof {
                    if frame is Err {
                        assert(observed(all) =~= elements@ + Seq::<Result<T, Error>>::empty());
                    } else {
                        assert(observed(all) =~= elements@ + observed(all.skip(at + 1)));
                    }
                }
            },
            None => {},
        }
    }
    stream.on_end();
    proof {
        if pending@.len() == 0 {
            assert(all.skip(all.len() as int) =~= Seq::<Result<T, String>>::empty());
        }
        assert(elements@ + Seq::<Result<T, Error>>::empty() =~= elements@);
    }
    elements
}

} // verus!

use backend_dispatch::{collect_frames, Error, FrameStream};

fn good(n: u32) -> Result<u32, String> {
    Ok(n)
}

fn bad(message: &str) -> Result<u32, String> {
    Err(message.to_string())
}

#[test]
fn well_formed_frames_are_all_observed() {
    let elements = collect_frames(vec![good(1), good(2), good(3)]);
    assert_eq!(elements, vec![Ok(1), Ok(2), Ok(3)]);
}

#[test]
fn empty_stream_has_no_elements() {
    let elements: Vec<Result<u32, Error>> = collect_frames(Vec::new());
    assert!(elements.is_empty());
}

#[test]
fn malformed_frame_ends_the_sequence() {
    let elements = collect_frames(vec![good(1), good(2), bad("eof"), good(4), bad("later")]);
    assert_eq!(
        elements,
        vec![Ok(1), Ok(2), Err(Error::Decode { message: "eof".to_string() })]
    );
}

#[test]
fn malformed_first_frame_gives_one_error() {
    let elements = collect_frames(vec![bad("first"), good(2)]);
    assert_eq!(elements, vec![Err(Error::Decode { message: "first".to_string() })]);
}

#[test]
fn malformed_last_frame_gives_error_after_the_good_ones() {
    let elements = collect_frames(vec![good(9), bad("last")]);
    assert_eq!(elements, vec![Ok(9), Err(Error::Decode { message: "last".to_string() })]);
}

#[test]
fn stream_is_pulled_frame_by_frame() {
    let mut stream = FrameStream::new();
    assert!(!stream.is_finished());
    assert_eq!(stream.on_frame(good(1)), Some(Ok(1)));
    assert!(!stream.is_finished());
    assert_eq!(
        stream.on_frame(bad("broken")),
        Some(Err(Error::Decode { message: "broken".to_string() }))
    );
    assert!(stream.is_finished());
    assert_eq!(stream.on_frame(good(3)), None);
    assert_eq!(stream.on_frame(bad("again")), None);
    assert!(stream.is_finished());
}

#[test]
fn closed_stream_gives_nothing_more() {
    let mut stream = FrameStream::new();
    assert_eq!(stream.on_frame(good(1)), Some(Ok(1)));
    stream.on_end();
    assert!(stream.is_finished());
    assert_eq!(stream.on_frame(good(2)), None);
}

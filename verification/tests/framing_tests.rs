use backend_dispatch::framing::LINE_FEED;
use backend_dispatch::{collect_frames, split_frames, Error};

fn frames(body: &str) -> Vec<String> {
    split_frames(body.as_bytes())
        .into_iter()
        .map(|frame| String::from_utf8(frame).unwrap())
        .collect()
}

#[test]
fn line_feed_is_byte_ten() {
    assert_eq!(LINE_FEED, b'\n');
}

#[test]
fn empty_body_has_no_frames() {
    assert!(split_frames(b"").is_empty());
    assert!(split_frames(b"\n").is_empty());
    assert!(split_frames(b"\n\n\n").is_empty());
}

#[test]
fn body_without_line_feed_is_one_frame() {
    assert_eq!(frames("{\"a\":1}"), vec!["{\"a\":1}"]);
}

#[test]
fn frames_are_split_at_line_feeds() {
    assert_eq!(frames("{\"a\":1}\n{\"a\":2}\n"), vec!["{\"a\":1}", "{\"a\":2}"]);
    assert_eq!(frames("one\ntwo\nthree"), vec!["one", "two", "three"]);
}

#[test]
fn blank_lines_between_events_give_no_frame() {
    assert_eq!(frames("one\n\ntwo\n\n"), vec!["one", "two"]);
    assert_eq!(frames("\n\none\n\n\n\ntwo"), vec!["one", "two"]);
}

#[test]
fn carriage_return_stays_in_its_frame() {
    assert_eq!(frames("one\r\ntwo"), vec!["one\r", "two"]);
}

#[test]
fn frames_of_a_body_are_those_of_its_parts() {
    let whole = frames("a\nb\n\nc");
    let mut parts = frames("a\nb");
    parts.extend(frames("\nc"));
    assert_eq!(whole, parts);
}

#[test]
fn streamed_body_is_framed_then_decoded() {
    let body = b"1\n2\nx\n4\n";
    let decoded: Vec<Result<u32, String>> = split_frames(body)
        .into_iter()
        .map(|frame| {
            String::from_utf8(frame)
                .unwrap()
                .parse::<u32>()
                .map_err(|_| "not a number".to_string())
        })
        .collect();
    assert_eq!(
        collect_frames(decoded),
        vec![Ok(1), Ok(2), Err(Error::Decode { message: "not a number".to_string() })]
    );
}

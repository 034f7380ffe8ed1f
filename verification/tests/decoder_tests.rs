use xpra::decoder::{decode, decode_draw, run_pipeline};
use xpra::packet::Packet;
use xpra::value::Value;

fn draw_packet(coding: &str, data_b64: &str) -> Packet {
    Packet {
        main: vec![
            Value::Text("draw".to_string()),
            Value::Integer(7),
            Value::Integer(0),
            Value::Integer(0),
            Value::Integer(4),
            Value::Integer(4),
            Value::Text(coding.to_string()),
            Value::Text(data_b64.to_string()),
            Value::Integer(12),
        ],
        raw: Vec::new(),
    }
}

#[test]
fn unsupported_coding_names_the_codec() {
    let r = decode("bmp", vec![1, 2, 3]);
    assert_eq!(r, Err("unsupported encoding bmp".to_string()));
}

#[test]
fn corrupt_png_fails_without_returning_input() {
    let r = decode("png", vec![1, 2, 3, 4]);
    assert_eq!(r, Err("png decoding failed".to_string()));
}

#[test]
fn scenario_bmp_draw_yields_draw_failed_with_message() {
    let outcome = decode_draw(draw_packet("bmp", "AQID"));
    match &outcome.main[0] {
        Value::Text(tag) => assert_eq!(tag, "draw-failed"),
        other => panic!("tag should be text, got {:?}", other),
    }
    match &outcome.main[7] {
        Value::Text(message) => assert!(message.contains("unsupported encoding bmp")),
        other => panic!("message should be text, got {:?}", other),
    }
    // The positional fields around the data slot are untouched.
    assert_eq!(outcome.main.len(), 9);
    match &outcome.main[8] {
        Value::Integer(sequence) => assert_eq!(*sequence, 12),
        other => panic!("sequence should be an integer, got {:?}", other),
    }
}

#[test]
fn failed_draw_attaches_no_pixels() {
    let outcome = decode_draw(draw_packet("bmp", "AQID"));
    assert!(outcome.raw.is_empty());
}

#[test]
fn every_submitted_draw_yields_exactly_one_outcome() {
    let draws = vec![
        draw_packet("bmp", "AQID"),
        draw_packet("png", "AQID"),
        draw_packet("jpeg", "AQID"),
    ];
    let outcomes = run_pipeline(draws);
    assert_eq!(outcomes.len(), 3);
    for outcome in &outcomes {
        match &outcome.main[0] {
            Value::Text(tag) => {
                assert!(tag == "draw-decoded" || tag == "draw-failed");
            }
            other => panic!("tag should be text, got {:?}", other),
        }
    }
    // Each outcome answers its own draw, in submission order.
    let expected = [
        "unsupported encoding bmp",
        "png decoding failed",
        "unsupported encoding jpeg",
    ];
    for (outcome, expected) in outcomes.iter().zip(expected) {
        match &outcome.main[7] {
            Value::Text(message) => assert_eq!(message, expected),
            other => panic!("message should be text, got {:?}", other),
        }
    }
}

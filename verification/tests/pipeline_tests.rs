//! End-to-end runs over the whole inbound path: framed bytes through the
//! codec into the session, draws through the decode pipeline, and the
//! acknowledgments that come back out.

use xpra::codec::parse_payload;
use xpra::decoder::decode_draw;
use xpra::framing::{decode_frame, encode_frame};
use xpra::session::{Action, XpraClient};

#[test]
fn framed_new_window_message_reaches_the_registry() {
    let payload = b"[\"new-window\", 7, 10, 20, 100, 50, {\"title\": \"Term\"}]";
    let frame = encode_frame(payload);
    let received = decode_frame(&frame).expect("valid frame");
    let packet = parse_payload(received).expect("valid payload");
    let mut client = XpraClient::new();
    let actions = client.process_packet(packet).expect("valid packet");
    assert_eq!(client.windows.len(), 1);
    assert_eq!(client.windows[0].wid, 7);
    assert_eq!(client.windows[0].title, "Term");
    assert!(matches!(actions[0], Action::CreateSurface { wid: 7, .. }));
}

#[test]
fn draw_with_unknown_codec_is_acknowledged_with_its_failure() {
    let payload =
        b"[\"draw\", 7, 0, 0, 8, 8, \"bmp\", \"AQID\", 31]";
    let packet = parse_payload(payload.to_vec()).expect("valid payload");
    let mut client = XpraClient::new();

    // The dispatcher reroutes the draw to the decode pipeline.
    let actions = client.process_packet(packet).expect("valid packet");
    assert_eq!(actions.len(), 1);
    let forwarded = match actions.into_iter().next().unwrap() {
        Action::Decode(p) => p,
        other => panic!("expected a decode forward, got {:?}", other),
    };

    // The pipeline turns it into exactly one outcome packet.
    let outcome = decode_draw(forwarded);

    // The dispatcher acknowledges the failure with a -1 decode time.
    let actions = client.process_packet(outcome).expect("valid packet");
    assert_eq!(actions.len(), 1);
    match &actions[0] {
        Action::Send(s) => assert_eq!(
            s,
            "[\"damage-sequence\",31,7,8,8,-1,\"unsupported encoding bmp\"]"
        ),
        other => panic!("expected an acknowledgment, got {:?}", other),
    }
}

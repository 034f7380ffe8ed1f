use xpra::packet::Packet;
use xpra::session::{Action, ProcessError, SessionState, WindowEvent, XpraClient};
use xpra::value::Value;

fn text(s: &str) -> Value {
    Value::Text(s.to_string())
}

fn new_window_packet(wid: i64, x: i64, y: i64, w: i64, h: i64, title: &str) -> Packet {
    Packet {
        main: vec![
            text("new-window"),
            Value::Integer(wid),
            Value::Integer(x),
            Value::Integer(y),
            Value::Integer(w),
            Value::Integer(h),
            Value::Mapping(vec![(text("title"), text(title))]),
        ],
        raw: Vec::new(),
    }
}

fn lost_window_packet(wid: i64) -> Packet {
    Packet {
        main: vec![text("lost-window"), Value::Integer(wid)],
        raw: Vec::new(),
    }
}

#[test]
fn scenario_new_window_creates_model_and_requests_surface() {
    let mut client = XpraClient::new();
    let actions = client
        .process_packet(new_window_packet(7, 10, 20, 100, 50, "Term"))
        .expect("valid packet");
    assert_eq!(client.windows.len(), 1);
    let w = &client.windows[0];
    assert_eq!(w.wid, 7);
    assert_eq!(w.x, 10);
    assert_eq!(w.y, 20);
    assert_eq!(w.width, 100);
    assert_eq!(w.height, 50);
    assert_eq!(w.title, "Term");
    assert!(!w.mapped);
    assert!(!w.override_redirect);
    assert_eq!(actions.len(), 1);
    match &actions[0] {
        Action::CreateSurface { wid, x, y, w, h, title, override_redirect } => {
            assert_eq!((*wid, *x, *y, *w, *h), (7, 10, 20, 100, 50));
            assert_eq!(title, "Term");
            assert!(!*override_redirect);
        }
        other => panic!("expected a surface request, got {:?}", other),
    }
}

#[test]
fn override_redirect_window_is_marked() {
    let mut client = XpraClient::new();
    let mut packet = new_window_packet(8, 0, 0, 10, 10, "menu");
    packet.main[0] = text("new-override-redirect");
    client.process_packet(packet).expect("valid packet");
    assert!(client.windows[0].override_redirect);
}

#[test]
fn registry_never_holds_two_windows_with_one_wid() {
    let mut client = XpraClient::new();
    client
        .process_packet(new_window_packet(7, 0, 0, 1, 1, "a"))
        .expect("valid packet");
    client
        .process_packet(new_window_packet(9, 0, 0, 1, 1, "b"))
        .expect("valid packet");
    // A second new-window with wid 7 replaces the live one.
    client
        .process_packet(new_window_packet(7, 5, 5, 2, 2, "c"))
        .expect("valid packet");
    assert_eq!(client.windows.len(), 2);
    let wids: Vec<u64> = client.windows.iter().map(|w| w.wid).collect();
    assert_eq!(wids, vec![7, 9]);
    assert_eq!(client.windows[0].title, "c");
    // Losing one leaves the other.
    client
        .process_packet(lost_window_packet(7))
        .expect("valid packet");
    let wids: Vec<u64> = client.windows.iter().map(|w| w.wid).collect();
    assert_eq!(wids, vec![9]);
}

#[test]
fn scenario_lost_window_for_absent_wid_leaves_registry_unchanged() {
    let mut client = XpraClient::new();
    client
        .process_packet(new_window_packet(7, 10, 20, 100, 50, "Term"))
        .expect("valid packet");
    let actions = client
        .process_packet(lost_window_packet(99))
        .expect("valid packet");
    assert!(actions.is_empty());
    assert_eq!(client.windows.len(), 1);
    assert_eq!(client.windows[0].wid, 7);
    assert_eq!(client.windows[0].title, "Term");
}

#[test]
fn lost_window_destroys_the_surface() {
    let mut client = XpraClient::new();
    client
        .process_packet(new_window_packet(7, 0, 0, 1, 1, "a"))
        .expect("valid packet");
    assert!(client.set_surface(7, 0x1234));
    let actions = client
        .process_packet(lost_window_packet(7))
        .expect("valid packet");
    assert_eq!(actions.len(), 1);
    match &actions[0] {
        Action::DestroySurface { wid, surface } => assert_eq!((*wid, *surface), (7, 0x1234)),
        other => panic!("expected a destroy request, got {:?}", other),
    }
    assert!(client.windows.is_empty());
}

#[test]
fn hello_records_version_and_activates_session() {
    let mut client = XpraClient::new();
    assert_eq!(client.state, SessionState::HandshakePending);
    let packet = Packet {
        main: vec![
            text("hello"),
            Value::Mapping(vec![(text("version"), text("6.2.1"))]),
        ],
        raw: Vec::new(),
    };
    let actions = client.process_packet(packet).expect("valid packet");
    assert!(actions.is_empty());
    assert_eq!(client.state, SessionState::Active);
    assert_eq!(client.server_version, "6.2.1");
}

#[test]
fn hello_without_version_leaves_it_unknown() {
    let mut client = XpraClient::new();
    let packet = Packet {
        main: vec![text("hello"), Value::Mapping(Vec::new())],
        raw: Vec::new(),
    };
    client.process_packet(packet).expect("valid packet");
    assert_eq!(client.state, SessionState::Active);
    assert_eq!(client.server_version, "");
}

#[test]
fn empty_packet_is_refused() {
    let mut client = XpraClient::new();
    let packet = Packet { main: Vec::new(), raw: Vec::new() };
    assert!(matches!(client.process_packet(packet), Err(ProcessError::EmptyPacket)));
}

#[test]
fn packet_without_text_tag_is_refused() {
    let mut client = XpraClient::new();
    let packet = Packet { main: vec![Value::Integer(3)], raw: Vec::new() };
    assert!(matches!(client.process_packet(packet), Err(ProcessError::MissingType)));
}

#[test]
fn truncated_draw_is_refused() {
    let mut client = XpraClient::new();
    let packet = Packet {
        main: vec![text("draw"), Value::Integer(7), Value::Integer(0)],
        raw: Vec::new(),
    };
    assert!(matches!(
        client.process_packet(packet),
        Err(ProcessError::TruncatedDraw)
    ));
    assert!(client.windows.is_empty());
}

#[test]
fn unknown_tag_is_ignored() {
    let mut client = XpraClient::new();
    let packet = Packet { main: vec![text("startup-complete")], raw: Vec::new() };
    let actions = client.process_packet(packet).expect("valid packet");
    assert!(actions.is_empty());
}

#[test]
fn window_metadata_updates_cached_title() {
    let mut client = XpraClient::new();
    client
        .process_packet(new_window_packet(7, 0, 0, 1, 1, "old"))
        .expect("valid packet");
    let packet = Packet {
        main: vec![
            text("window-metadata"),
            Value::Integer(7),
            Value::Mapping(vec![(text("title"), text("new"))]),
        ],
        raw: Vec::new(),
    };
    client.process_packet(packet).expect("valid packet");
    assert_eq!(client.windows[0].title, "new");
}

#[test]
fn window_metadata_for_unknown_wid_is_ignored() {
    let mut client = XpraClient::new();
    let packet = Packet {
        main: vec![
            text("window-metadata"),
            Value::Integer(9),
            Value::Mapping(vec![(text("title"), text("new"))]),
        ],
        raw: Vec::new(),
    };
    client.process_packet(packet).expect("valid packet");
    assert!(client.windows.is_empty());
}

fn draw_packet_with_tag(tag: &str, wid: i64) -> Packet {
    Packet {
        main: vec![
            text(tag),
            Value::Integer(wid),
            Value::Integer(1),
            Value::Integer(2),
            Value::Integer(100),
            Value::Integer(50),
            Value::Text("png".to_string()),
            Value::Text("unsupported encoding bmp".to_string()),
            Value::Integer(12),
        ],
        raw: Vec::new(),
    }
}

#[test]
fn draw_is_forwarded_to_the_decode_pipeline() {
    let mut client = XpraClient::new();
    let actions = client
        .process_packet(draw_packet_with_tag("draw", 7))
        .expect("valid packet");
    assert_eq!(actions.len(), 1);
    match &actions[0] {
        Action::Decode(p) => assert_eq!(p.main.len(), 9),
        other => panic!("expected a decode forward, got {:?}", other),
    }
}

#[test]
fn draw_decoded_paints_and_acknowledges() {
    let mut client = XpraClient::new();
    client
        .process_packet(new_window_packet(7, 0, 0, 100, 50, "t"))
        .expect("valid packet");
    client.set_surface(7, 0x77);
    let mut packet = draw_packet_with_tag("draw-decoded", 7);
    packet.raw = vec![(7, vec![1, 2, 3, 4])];
    let actions = client.process_packet(packet).expect("valid packet");
    assert_eq!(actions.len(), 2);
    match &actions[0] {
        Action::Paint { wid, surface, seq, x, y, w, h, pixels } => {
            assert_eq!((*wid, *surface, *seq), (7, 0x77, 12));
            assert_eq!((*x, *y, *w, *h), (1, 2, 100, 50));
            assert_eq!(pixels, &vec![1, 2, 3, 4]);
        }
        other => panic!("expected a paint request, got {:?}", other),
    }
    match &actions[1] {
        Action::Send(s) => assert_eq!(s, "[\"damage-sequence\",12,7,100,50,0,\"\"]"),
        other => panic!("expected an acknowledgment, got {:?}", other),
    }
}

#[test]
fn draw_decoded_for_unknown_window_acknowledges_with_error() {
    let mut client = XpraClient::new();
    let actions = client
        .process_packet(draw_packet_with_tag("draw-decoded", 99))
        .expect("valid packet");
    assert_eq!(actions.len(), 1);
    match &actions[0] {
        Action::Send(s) => {
            assert_eq!(s, "[\"damage-sequence\",12,99,100,50,-1,\"window not found!\"]")
        }
        other => panic!("expected an acknowledgment, got {:?}", other),
    }
}

#[test]
fn scenario_draw_failed_acknowledges_with_negative_decode_time() {
    let mut client = XpraClient::new();
    let actions = client
        .process_packet(draw_packet_with_tag("draw-failed", 7))
        .expect("valid packet");
    assert_eq!(actions.len(), 1);
    match &actions[0] {
        Action::Send(s) => assert_eq!(
            s,
            "[\"damage-sequence\",12,7,100,50,-1,\"unsupported encoding bmp\"]"
        ),
        other => panic!("expected an acknowledgment, got {:?}", other),
    }
}

#[test]
fn init_event_maps_the_window_once() {
    let mut client = XpraClient::new();
    client
        .process_packet(new_window_packet(7, 0, 0, 1, 1, "t"))
        .expect("valid packet");
    let (handled, actions) =
        client.handle_window_event(7, WindowEvent::Init { x: 10, y: 20, w: 100, h: 50 });
    assert!(handled);
    assert!(client.windows[0].mapped);
    assert_eq!(actions.len(), 1);
    match &actions[0] {
        Action::Send(s) => assert_eq!(s, "[\"map-window\",7,10,20,100,50,{},{}]"),
        other => panic!("expected a map message, got {:?}", other),
    }
    // A second realization is handled but sends nothing.
    let (handled, actions) =
        client.handle_window_event(7, WindowEvent::Init { x: 10, y: 20, w: 100, h: 50 });
    assert!(handled);
    assert!(actions.is_empty());
}

#[test]
fn init_event_for_unknown_window_is_unhandled() {
    let mut client = XpraClient::new();
    let (handled, actions) =
        client.handle_window_event(9, WindowEvent::Init { x: 0, y: 0, w: 1, h: 1 });
    assert!(!handled);
    assert!(actions.is_empty());
}

#[test]
fn move_event_sends_configure() {
    let mut client = XpraClient::new();
    client
        .process_packet(new_window_packet(7, 0, 0, 1, 1, "t"))
        .expect("valid packet");
    let (handled, actions) =
        client.handle_window_event(7, WindowEvent::Moved { x: 5, y: 6, w: 70, h: 80 });
    assert!(handled);
    match &actions[0] {
        Action::Send(s) => assert_eq!(s, "[\"configure-window\",7,5,6,70,80,{}]"),
        other => panic!("expected a configure message, got {:?}", other),
    }
}

#[test]
fn paint_event_redraws_only_mapped_windows() {
    let mut client = XpraClient::new();
    client
        .process_packet(new_window_packet(7, 0, 0, 1, 1, "t"))
        .expect("valid packet");
    client.set_surface(7, 0x55);
    let (handled, actions) = client.handle_window_event(7, WindowEvent::Paint);
    assert!(handled);
    assert!(actions.is_empty());
    client.handle_window_event(7, WindowEvent::Init { x: 0, y: 0, w: 1, h: 1 });
    let (handled, actions) = client.handle_window_event(7, WindowEvent::Paint);
    assert!(handled);
    match &actions[0] {
        Action::Redraw { wid, surface } => assert_eq!((*wid, *surface), (7, 0x55)),
        other => panic!("expected a redraw request, got {:?}", other),
    }
}

#[test]
fn input_events_send_pointer_and_key_messages() {
    let mut client = XpraClient::new();
    let (_, actions) = client.handle_window_event(7, WindowEvent::MouseMove { x: 3, y: 4 });
    match &actions[0] {
        Action::Send(s) => assert_eq!(s, "[\"pointer\",0,0,7,[3,4],{}]"),
        other => panic!("expected a pointer message, got {:?}", other),
    }
    let (_, actions) = client.handle_window_event(
        7,
        WindowEvent::MousePress { button: 1, pressed: true, x: 3, y: 4 },
    );
    match &actions[0] {
        Action::Send(s) => assert_eq!(s, "[\"pointer-button\",0,0,7,1,true,[3,4],{}]"),
        other => panic!("expected a pointer-button message, got {:?}", other),
    }
    let (_, actions) = client.handle_window_event(
        7,
        WindowEvent::KeyPress { keyname: "a".to_string(), keychar: Some('a'), keycode: 65 },
    );
    match &actions[0] {
        Action::Send(s) => assert_eq!(s, "[\"key-action\",7,\"a\",true,[],0,\"a\",65,0]"),
        other => panic!("expected a key message, got {:?}", other),
    }
    let (_, actions) = client.handle_window_event(7, WindowEvent::KeyEnter);
    match &actions[0] {
        Action::Send(s) => assert_eq!(s, "[\"key-action\",7,\"Return\",true,[],0,null,13,0]"),
        other => panic!("expected a key message, got {:?}", other),
    }
    let (_, actions) = client.handle_window_event(7, WindowEvent::Close);
    match &actions[0] {
        Action::Send(s) => assert_eq!(s, "[\"close-window\",7]"),
        other => panic!("expected a close message, got {:?}", other),
    }
    let (handled, actions) = client.handle_window_event(7, WindowEvent::Other);
    assert!(!handled);
    assert!(actions.is_empty());
}

#[test]
fn focus_follows_surface_handles_except_for_popups() {
    let mut client = XpraClient::new();
    client
        .process_packet(new_window_packet(7, 0, 0, 1, 1, "t"))
        .expect("valid packet");
    let mut popup = new_window_packet(8, 0, 0, 1, 1, "menu");
    popup.main[0] = text("new-override-redirect");
    client.process_packet(popup).expect("valid packet");
    client.set_surface(7, 0x10);
    client.set_surface(8, 0x20);
    assert_eq!(client.find_wid(0x10), 7);
    assert_eq!(client.find_wid(0x20), 8);
    assert_eq!(client.find_wid(0x30), 0);
    let actions = client.handle_foreground(0x10);
    assert_eq!(actions.len(), 1);
    match &actions[0] {
        Action::Send(s) => assert_eq!(s, "[\"focus\",7,null]"),
        other => panic!("expected a focus message, got {:?}", other),
    }
    // An override-redirect popup never takes focus.
    assert!(client.handle_foreground(0x20).is_empty());
    assert!(client.handle_foreground(0x30).is_empty());
}

#[test]
fn close_destroys_every_surface_and_ends_the_session() {
    let mut client = XpraClient::new();
    client
        .process_packet(new_window_packet(7, 0, 0, 1, 1, "a"))
        .expect("valid packet");
    client
        .process_packet(new_window_packet(8, 0, 0, 1, 1, "b"))
        .expect("valid packet");
    client.set_surface(7, 0x10);
    let actions = client.close();
    assert_eq!(actions.len(), 2);
    match (&actions[0], &actions[1]) {
        (
            Action::DestroySurface { wid: w0, surface: s0 },
            Action::DestroySurface { wid: w1, surface: s1 },
        ) => {
            assert_eq!((*w0, *s0), (7, 0x10));
            assert_eq!((*w1, *s1), (8, 0));
        }
        other => panic!("expected two destroy requests, got {:?}", other),
    }
    assert!(client.windows.is_empty());
    assert_eq!(client.state, SessionState::Closed);
}

#[test]
fn hello_and_focus_payloads_come_from_the_session() {
    let mut client = XpraClient::new();
    assert!(!client.hello_sent);
    client.mark_hello_sent();
    assert!(client.hello_sent);
    assert!(client
        .send_hello("u", "n", "h", "id")
        .starts_with("[\"hello\",{\"version\":"));
    assert_eq!(client.send_focus(3), "[\"focus\",3,null]");
}

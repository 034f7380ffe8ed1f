use xpra::wire::{
    close_window_payload, configure_window_payload, damage_sequence_payload, focus_payload,
    hello_payload, key_action_payload, map_window_payload, pointer_button_payload,
    pointer_position_payload,
};

#[test]
fn hello_carries_capabilities_and_identity() {
    let payload = hello_payload("u", "user", "host", "1234");
    assert_eq!(
        payload,
        "[\"hello\",{\"version\":\"0.1.0\",\"yaml\":true,\"chunks\":false,\
         \"windows\":true,\"keyboard\":true,\"mouse\":true,\"sharing\":true,\
         \"encodings\":[\"png\"],\"client_type\":\"rust\",\
         \"platform\":\"win32\",\"user\":\"u\",\"username\":\"user\",\
         \"hostname\":\"host\",\"uuid\":\"1234\"}]"
    );
}

#[test]
fn focus_message_shape() {
    assert_eq!(focus_payload(7), "[\"focus\",7,null]");
}

#[test]
fn pointer_position_message_shape() {
    assert_eq!(
        pointer_position_payload(7, -3, 40),
        "[\"pointer\",0,0,7,[-3,40],{}]"
    );
}

#[test]
fn pointer_button_message_shape() {
    assert_eq!(
        pointer_button_payload(7, 1, true, 10, 20),
        "[\"pointer-button\",0,0,7,1,true,[10,20],{}]"
    );
    assert_eq!(
        pointer_button_payload(7, 1, false, 0, 0),
        "[\"pointer-button\",0,0,7,1,false,[0,0],{}]"
    );
}

#[test]
fn key_action_message_shape() {
    assert_eq!(
        key_action_payload(7, "Return", true, Some('\r'), 13),
        "[\"key-action\",7,\"Return\",true,[],0,\"\\u000d\",13,0]"
    );
    assert_eq!(
        key_action_payload(7, "a", false, Some('a'), 65),
        "[\"key-action\",7,\"a\",false,[],0,\"a\",65,0]"
    );
    assert_eq!(
        key_action_payload(7, "Shift", true, None, 16),
        "[\"key-action\",7,\"Shift\",true,[],0,null,16,0]"
    );
}

#[test]
fn map_window_message_shape() {
    assert_eq!(
        map_window_payload(7, 10, 20, 100, 50),
        "[\"map-window\",7,10,20,100,50,{},{}]"
    );
}

#[test]
fn configure_window_message_shape() {
    assert_eq!(
        configure_window_payload(7, -5, -6, 640, 480),
        "[\"configure-window\",7,-5,-6,640,480,{}]"
    );
}

#[test]
fn close_window_message_shape() {
    assert_eq!(close_window_payload(42), "[\"close-window\",42]");
}

#[test]
fn damage_sequence_message_shape() {
    assert_eq!(
        damage_sequence_payload(12, 7, 100, 50, 0, ""),
        "[\"damage-sequence\",12,7,100,50,0,\"\"]"
    );
    assert_eq!(
        damage_sequence_payload(12, 7, 100, 50, -1, "window not found!"),
        "[\"damage-sequence\",12,7,100,50,-1,\"window not found!\"]"
    );
}

#[test]
fn quoted_text_escapes_quotes_backslashes_and_controls() {
    assert_eq!(
        damage_sequence_payload(0, 0, 0, 0, 0, "a\"b\\c\nd"),
        "[\"damage-sequence\",0,0,0,0,0,\"a\\\"b\\\\c\\u000ad\"]"
    );
}

#[test]
fn decimal_notation_covers_extremes() {
    assert_eq!(
        damage_sequence_payload(u64::MAX, 0, 0, 0, i64::MIN, "x"),
        "[\"damage-sequence\",18446744073709551615,0,0,0,-9223372036854775808,\"x\"]"
    );
}

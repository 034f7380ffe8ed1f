//! Outbound message encoding: a simple bracketed, positional array text.
//!
//! Outbound packets are built directly in this form; the inbound payload
//! encoding is a different, richer structured text, and the asymmetry is
//! intentional.  Every builder returns the exact character sequence its
//! contract states.

use vstd::prelude::*;

use crate::value::push_char;

verus! {

/// The decimal digit character for `d`.
pub open spec fn spec_digit(d: int) -> char
    recommends
        0 <= d < 10,
{
    if d == 0 {
        '0'
    } else if d == 1 {
        '1'
    } else if d == 2 {
        '2'
    } else if d == 3 {
        '3'
    } else if d == 4 {
        '4'
    } else if d == 5 {
        '5'
    } else if d == 6 {
        '6'
    } else if d == 7 {
        '7'
    } else if d == 8 {
        '8'
    } else {
        '9'
    }
}

/// The hexadecimal digit character for `d`.
pub open spec fn spec_hex_digit(d: int) -> char
    recommends
        0 <= d < 16,
{
    if d < 10 {
        spec_digit(d)
    } else if d == 10 {
        'a'
    } else if d == 11 {
        'b'
    } else if d == 12 {
        'c'
    } else if d == 13 {
        'd'
    } else if d == 14 {
        'e'
    } else {
        'f'
    }
}

/// The decimal notation of a non-negative integer.
pub open spec fn spec_dec_nat(n: int) -> Seq<char>
    recommends
        n >= 0,
    decreases n,
{
    if n < 10 {
        seq![spec_digit(n)]
    } else {
        spec_dec_nat(n / 10).push(spec_digit(n % 10))
    }
}

/// The decimal notation of a signed integer: a minus sign before the
/// magnitude when negative.
pub open spec fn spec_dec_int(i: int) -> Seq<char> {
    if i < 0 {
        seq!['-'] + spec_dec_nat(-i)
    } else {
        spec_dec_nat(i)
    }
}

/// How one character appears inside a quoted text: quote and backslash get
/// a backslash escape, control characters a four-digit escape, and every
/// other character stands for itself.
pub open spec fn spec_escape_char(c: char) -> Seq<char> {
    if c == '"' {
        seq!['\\', '"']
    } else if c == '\\' {
        seq!['\\', '\\']
    } else if (c as int) < 32 {
        seq!['\\', 'u', '0', '0', spec_hex_digit(c as int / 16), spec_hex_digit(c as int % 16)]
    } else {
        seq![c]
    }
}

/// A text with every character escaped for quoting.
pub open spec fn spec_escaped(s: Seq<char>) -> Seq<char>
    decreases s.len(),
{
    if s.len() == 0 {
        Seq::empty()
    } else {
        spec_escape_char(s[0]) + spec_escaped(s.drop_first())
    }
}

/// A quoted text: the escaped characters between double quotes.
pub open spec fn spec_quoted(s: Seq<char>) -> Seq<char> {
    seq!['"'] + spec_escaped(s) + seq!['"']
}

proof fn lemma_escaped_push(s: Seq<char>, c: char)
    ensures
        spec_escaped(s.push(c)) == spec_escaped(s) + spec_escape_char(c),
    decreases s.len(),
{
    if s.len() == 0 {
        assert(s.push(c) =~= seq![c]);
        assert(spec_escaped(Seq::<char>::empty()) == Seq::<char>::empty());
        assert(seq![c].drop_first() =~= Seq::<char>::empty());
        assert(spec_escape_char(c) + Seq::<char>::empty() =~= spec_escape_char(c));
        assert(spec_escaped(s) + spec_escape_char(c) =~= spec_escape_char(c));
    } else {
        assert(s.push(c).drop_first() =~= s.drop_first().push(c));
        lemma_escaped_push(s.drop_first(), c);
        assert(spec_escape_char(s[0]) + (spec_escaped(s.drop_first()) + spec_escape_char(c)) =~= (
        spec_escape_char(s[0]) + spec_escaped(s.drop_first())) + spec_escape_char(c));
    }
}

/// The digit character for `d`.
fn digit_char(d: u64) -> (c: char)
    requires
        d < 10,
    ensures
        c == spec_digit(d as int),
{
    if d == 0 {
        '0'
    } else if d == 1 {
        '1'
    } else if d == 2 {
        '2'
    } else if d == 3 {
        '3'
    } else if d == 4 {
        '4'
    } else if d == 5 {
        '5'
    } else if d == 6 {
        '6'
    } else if d == 7 {
        '7'
    } else if d == 8 {
        '8'
    } else {
        '9'
    }
}

/// The hexadecimal digit character for `d`.
fn hex_digit_char(d: u32) -> (c: char)
    requires
        d < 16,
    ensures
        c == spec_hex_digit(d as int),
{
    if d < 10 {
        digit_char(d as u64)
    } else if d == 10 {
        'a'
    } else if d == 11 {
        'b'
    } else if d == 12 {
        'c'
    } else if d == 13 {
        'd'
    } else if d == 14 {
        'e'
    } else {
        'f'
    }
}

/// Appends the decimal notation of `n`.
pub fn push_u64(out: &mut String, n: u64)
    ensures
        final(out)@ == old(out)@ + spec_dec_nat(n as int),
    decreases n,
{
    if n >= 10 {
        push_u64(out, n / 10);
        push_char(out, digit_char(n % 10));
        proof {
            assert(old(out)@ + spec_dec_nat(n as int / 10) + seq![spec_digit(n as int % 10)]
                =~= old(out)@ + spec_dec_nat(n as int));
        }
    } else {
        push_char(out, digit_char(n));
    }
}

/// Appends the decimal notation of `i`, with a minus sign when negative.
pub fn push_i64(out: &mut String, i: i64)
    ensures
        final(out)@ == old(out)@ + spec_dec_int(i as int),
{
    if i < 0 {
        push_char(out, '-');
        let mag: u64 = if i == i64::MIN {
            9223372036854775808u64
        } else {
            (-i) as u64
        };
        assert(mag == -(i as int));
        push_u64(out, mag);
        proof {
            assert(old(out)@ + seq!['-'] + spec_dec_nat(mag as int) =~= old(out)@ + (seq!['-']
                + spec_dec_nat(mag as int)));
        }
    } else {
        push_u64(out, i as u64);
    }
}

/// Appends `s` quoted: its characters escaped, between double quotes.
pub fn push_quoted(out: &mut String, s: &str)
    ensures
        final(out)@ == old(out)@ + spec_quoted(s@),
{
    push_char(out, '"');
    let n = s.unicode_len();
    let mut i: usize = 0;
    while i < n
        invariant
            n == s@.len(),
            i <= n,
            out@ == old(out)@ + seq!['"'] + spec_escaped(s@.subrange(0, i as int)),
        decreases n - i,
    {
        let c = s.get_char(i);
        if c == '"' {
            push_char(out, '\\');
            push_char(out, '"');
        } else if c == '\\' {
            push_char(out, '\\');
            push_char(out, '\\');
        } else if (c as u32) < 32 {
            push_char(out, '\\');
            push_char(out, 'u');
            push_char(out, '0');
            push_char(out, '0');
            push_char(out, hex_digit_char((c as u32) / 16));
            push_char(out, hex_digit_char((c as u32) % 16));
        } else {
            push_char(out, c);
        }
        i += 1;
        proof {
            lemma_escaped_push(s@.subrange(0, i - 1), s@[i - 1]);
            assert(s@.subrange(0, i as int) =~= s@.subrange(0, i - 1).push(s@[i - 1]));
            assert(out@ =~= old(out)@ + seq!['"'] + spec_escaped(s@.subrange(0, i as int)));
        }
    }
    push_char(out, '"');
    proof {
        assert(s@.subrange(0, n as int) =~= s@);
        assert(out@ =~= old(out)@ + spec_quoted(s@));
    }
}

/// The text `true` or `false`.
pub open spec fn spec_bool(b: bool) -> Seq<char> {
    if b {
        "true"@
    } else {
        "false"@
    }
}

/// Appends `true` or `false`.
pub fn push_bool(out: &mut String, b: bool)
    ensures
        final(out)@ == old(out)@ + spec_bool(b),
{
    if b {
        out.append("true");
    } else {
        out.append("false");
    }
}

/// The hello message: the protocol version, the client's fixed
/// capabilities, and its identity fields.
pub open spec fn spec_hello_msg(
    user: Seq<char>,
    username: Seq<char>,
    hostname: Seq<char>,
    uuid: Seq<char>,
) -> Seq<char> {
    "[\"hello\",{\"version\":\"0.1.0\",\"yaml\":true,\"chunks\":false,\"windows\":true,\"keyboard\":true,\"mouse\":true,\"sharing\":true,\"encodings\":[\"png\"],\"client_type\":\"rust\",\"platform\":\"win32\",\"user\":"@
        + spec_quoted(user) + ",\"username\":"@ + spec_quoted(username) + ",\"hostname\":"@
        + spec_quoted(hostname) + ",\"uuid\":"@ + spec_quoted(uuid) + "}]"@
}

/// Builds the hello payload from the caller-supplied identity fields.
pub fn hello_payload(user: &str, username: &str, hostname: &str, uuid: &str) -> (r: String)
    ensures
        r@ == spec_hello_msg(user@, username@, hostname@, uuid@),
{
    let mut out = String::new();
    out.append(
        "[\"hello\",{\"version\":\"0.1.0\",\"yaml\":true,\"chunks\":false,\"windows\":true,\"keyboard\":true,\"mouse\":true,\"sharing\":true,\"encodings\":[\"png\"],\"client_type\":\"rust\",\"platform\":\"win32\",\"user\":",
    );
    push_quoted(&mut out, user);
    out.append(",\"username\":");
    push_quoted(&mut out, username);
    out.append(",\"hostname\":");
    push_quoted(&mut out, hostname);
    out.append(",\"uuid\":");
    push_quoted(&mut out, uuid);
    out.append("}]");
    proof {
        assert(out@ =~= spec_hello_msg(user@, username@, hostname@, uuid@));
    }
    out
}

/// The focus message for a window.
pub open spec fn spec_focus_msg(wid: u64) -> Seq<char> {
    "[\"focus\","@ + spec_dec_nat(wid as int) + ",null]"@
}

/// Builds the focus payload for a window.
pub fn focus_payload(wid: u64) -> (r: String)
    ensures
        r@ == spec_focus_msg(wid),
{
    let mut out = String::new();
    out.append("[\"focus\",");
    push_u64(&mut out, wid);
    out.append(",null]");
    proof {
        assert(out@ =~= spec_focus_msg(wid));
    }
    out
}

/// The pointer-position message: device 0, sequence 0, the window, and the
/// pointer coordinates.
pub open spec fn spec_pointer_position_msg(wid: u64, x: int, y: int) -> Seq<char> {
    "[\"pointer\",0,0,"@ + spec_dec_nat(wid as int) + ",["@ + spec_dec_int(x) + ","@
        + spec_dec_int(y) + "],{}]"@
}

/// Builds the pointer-position payload.
pub fn pointer_position_payload(wid: u64, x: i32, y: i32) -> (r: String)
    ensures
        r@ == spec_pointer_position_msg(wid, x as int, y as int),
{
    let mut out = String::new();
    out.append("[\"pointer\",0,0,");
    push_u64(&mut out, wid);
    out.append(",[");
    push_i64(&mut out, x as i64);
    out.append(",");
    push_i64(&mut out, y as i64);
    out.append("],{}]");
    proof {
        assert(out@ =~= spec_pointer_position_msg(wid, x as int, y as int));
    }
    out
}

/// The pointer-button message: device 0, sequence 0, the window, the
/// button, whether it is pressed, and the pointer coordinates.
pub open spec fn spec_pointer_button_msg(
    wid: u64,
    button: int,
    pressed: bool,
    x: int,
    y: int,
) -> Seq<char> {
    "[\"pointer-button\",0,0,"@ + spec_dec_nat(wid as int) + ","@ + spec_dec_int(button) + ","@
        + spec_bool(pressed) + ",["@ + spec_dec_int(x) + ","@ + spec_dec_int(y) + "],{}]"@
}

/// Builds the pointer-button payload.
pub fn pointer_button_payload(wid: u64, button: i8, pressed: bool, x: i32, y: i32) -> (r: String)
    ensures
        r@ == spec_pointer_button_msg(wid, button as int, pressed, x as int, y as int),
{
    let mut out = String::new();
    out.append("[\"pointer-button\",0,0,");
    push_u64(&mut out, wid);
    out.append(",");
    push_i64(&mut out, button as i64);
    out.append(",");
    push_bool(&mut out, pressed);
    out.append(",[");
    push_i64(&mut out, x as i64);
    out.append(",");
    push_i64(&mut out, y as i64);
    out.append("],{}]");
    proof {
        assert(out@ =~= spec_pointer_button_msg(wid, button as int, pressed, x as int, y as int));
    }
    out
}

/// The character a key produced, as a quoted text, or `null` when it
/// produced none.
pub open spec fn spec_opt_char(c: Option<char>) -> Seq<char> {
    match c {
        Some(c) => spec_quoted(seq![c]),
        None => "null"@,
    }
}

/// The key-action message: the window, the key's name, whether it is
/// pressed, the modifier list (always empty), the group, the character the
/// key produced, and the key code.
pub open spec fn spec_key_action_msg(
    wid: u64,
    keyname: Seq<char>,
    pressed: bool,
    keychar: Option<char>,
    keycode: u32,
) -> Seq<char> {
    "[\"key-action\","@ + spec_dec_nat(wid as int) + ","@ + spec_quoted(keyname) + ","@
        + spec_bool(pressed) + ",[],0,"@ + spec_opt_char(keychar) + ","@ + spec_dec_nat(
        keycode as int,
    ) + ",0]"@
}

/// Builds the key-action payload.
pub fn key_action_payload(
    wid: u64,
    keyname: &str,
    pressed: bool,
    keychar: Option<char>,
    keycode: u32,
) -> (r: String)
    ensures
        r@ == spec_key_action_msg(wid, keyname@, pressed, keychar, keycode),
{
    let mut out = String::new();
    out.append("[\"key-action\",");
    push_u64(&mut out, wid);
    out.append(",");
    push_quoted(&mut out, keyname);
    out.append(",");
    push_bool(&mut out, pressed);
    out.append(",[],0,");
    match keychar {
        Some(c) => {
            let mut one = String::new();
            push_char(&mut one, c);
            push_quoted(&mut out, one.as_str());
            proof {
                assert(one@ =~= seq![c]);
            }
        },
        None => {
            out.append("null");
        },
    }
    out.append(",");
    push_u64(&mut out, keycode as u64);
    out.append(",0]");
    proof {
        assert(out@ =~= spec_key_action_msg(wid, keyname@, pressed, keychar, keycode));
    }
    out
}

/// The geometry part several window messages share: the position and size
/// as four decimal numbers.
pub open spec fn spec_geometry(x: int, y: int, w: int, h: int) -> Seq<char> {
    spec_dec_int(x) + ","@ + spec_dec_int(y) + ","@ + spec_dec_nat(w) + ","@ + spec_dec_nat(h)
}

/// Appends a geometry: position and size as four decimal numbers.
fn push_geometry(out: &mut String, x: i32, y: i32, w: u32, h: u32)
    ensures
        final(out)@ == old(out)@ + spec_geometry(x as int, y as int, w as int, h as int),
{
    push_i64(out, x as i64);
    out.append(",");
    push_i64(out, y as i64);
    out.append(",");
    push_u64(out, w as u64);
    out.append(",");
    push_u64(out, h as u64);
    proof {
        assert(out@ =~= old(out)@ + spec_geometry(x as int, y as int, w as int, h as int));
    }
}

/// The map-window message: a window's first realization, echoing its
/// geometry.
pub open spec fn spec_map_window_msg(wid: u64, x: int, y: int, w: int, h: int) -> Seq<char> {
    "[\"map-window\","@ + spec_dec_nat(wid as int) + ","@ + spec_geometry(x, y, w, h) + ",{},{}]"@
}

/// Builds the map-window payload.
pub fn map_window_payload(wid: u64, x: i32, y: i32, w: u32, h: u32) -> (r: String)
    ensures
        r@ == spec_map_window_msg(wid, x as int, y as int, w as int, h as int),
{
    let mut out = String::new();
    out.append("[\"map-window\",");
    push_u64(&mut out, wid);
    out.append(",");
    push_geometry(&mut out, x, y, w, h);
    out.append(",{},{}]");
    proof {
        assert(out@ =~= spec_map_window_msg(wid, x as int, y as int, w as int, h as int));
    }
    out
}

/// The configure-window message: a window's new geometry after a local
/// move or resize.
pub open spec fn spec_configure_window_msg(wid: u64, x: int, y: int, w: int, h: int) -> Seq<char> {
    "[\"configure-window\","@ + spec_dec_nat(wid as int) + ","@ + spec_geometry(x, y, w, h)
        + ",{}]"@
}

/// Builds the configure-window payload.
pub fn configure_window_payload(wid: u64, x: i32, y: i32, w: u32, h: u32) -> (r: String)
    ensures
        r@ == spec_configure_window_msg(wid, x as int, y as int, w as int, h as int),
{
    let mut out = String::new();
    out.append("[\"configure-window\",");
    push_u64(&mut out, wid);
    out.append(",");
    push_geometry(&mut out, x, y, w, h);
    out.append(",{}]");
    proof {
        assert(out@ =~= spec_configure_window_msg(wid, x as int, y as int, w as int, h as int));
    }
    out
}

/// The close-window message.
pub open spec fn spec_close_window_msg(wid: u64) -> Seq<char> {
    "[\"close-window\","@ + spec_dec_nat(wid as int) + "]"@
}

/// Builds the close-window payload.
pub fn close_window_payload(wid: u64) -> (r: String)
    ensures
        r@ == spec_close_window_msg(wid),
{
    let mut out = String::new();
    out.append("[\"close-window\",");
    push_u64(&mut out, wid);
    out.append("]");
    proof {
        assert(out@ =~= spec_close_window_msg(wid));
    }
    out
}

/// The damage-sequence message — the acknowledgment of one draw: the
/// draw's sequence number, the window, the painted size, the decode time in
/// milliseconds (`-1` on failure), and a message text.
pub open spec fn spec_damage_sequence_msg(
    seq: u64,
    wid: u64,
    w: int,
    h: int,
    decode_time: int,
    message: Seq<char>,
) -> Seq<char> {
    "[\"damage-sequence\","@ + spec_dec_nat(seq as int) + ","@ + spec_dec_nat(wid as int) + ","@
        + spec_dec_nat(w) + ","@ + spec_dec_nat(h) + ","@ + spec_dec_int(decode_time) + ","@
        + spec_quoted(message) + "]"@
}

/// Builds the damage-sequence payload.
pub fn damage_sequence_payload(
    seq: u64,
    wid: u64,
    w: u32,
    h: u32,
    decode_time: i64,
    message: &str,
) -> (r: String)
    ensures
        r@ == spec_damage_sequence_msg(
            seq,
            wid,
            w as int,
            h as int,
            decode_time as int,
            message@,
        ),
{
    let mut out = String::new();
    out.append("[\"damage-sequence\",");
    push_u64(&mut out, seq);
    out.append(",");
    push_u64(&mut out, wid);
    out.append(",");
    push_u64(&mut out, w as u64);
    out.append(",");
    push_u64(&mut out, h as u64);
    out.append(",");
    push_i64(&mut out, decode_time);
    out.append(",");
    push_quoted(&mut out, message);
    out.append("]");
    proof {
        assert(out@ =~= spec_damage_sequence_msg(
            seq,
            wid,
            w as int,
            h as int,
            decode_time as int,
            message@,
        ));
    }
    out
}

} // verus!

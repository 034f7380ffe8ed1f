//! The session state machine: the window registry, the server-handshake
//! state, and the interpretation of every inbound packet into registry
//! mutations and outbound actions.
//!
//! The session owns no socket and no surface: it is driven by a single
//! dispatch consumer, which performs the returned [`Action`]s — writing
//! serialized payloads, forwarding draws to the decode pipeline, and calling
//! the renderer collaborator — so no locking around window state is needed.

use vstd::prelude::*;
use vstd::string::StringExecFns;

use crate::decoder::{spec_decode_outcome, spec_draw_coding, spec_draw_data, spec_draw_outcome};
use crate::packet::Packet;
use crate::value::{spec_elem, spec_lookup, str_eq, Value};
use crate::wire;

verus! {

/// The lifecycle of one session.
#[derive(Debug, Clone, Copy, PartialEq, Eq, Structural)]
pub enum SessionState {
    /// No socket yet.
    Disconnected,
    /// The socket is open and no hello has been exchanged.
    HandshakePending,
    /// The server answered the handshake.
    Active,
    /// The session is torn down.
    Closed,
}

/// The client-side model of one remote window.
#[derive(Debug)]
pub struct XpraWindow {
    /// The server-assigned window id, unique among live windows.
    pub wid: u64,
    /// The window's position.
    pub x: i32,
    /// The window's position.
    pub y: i32,
    /// The window's size.
    pub width: u32,
    /// The window's size.
    pub height: u32,
    /// The window's title.
    pub title: String,
    /// Whether the window was realized on screen.
    pub mapped: bool,
    /// Whether the window is a transient popup excluded from focus.
    pub override_redirect: bool,
    /// The renderer's opaque native handle for the window's surface;
    /// `0` until the renderer reports one.
    pub surface: u64,
}

/// One effect the dispatch consumer must perform: the session mutates its
/// own state and hands everything else back as data.
#[derive(Debug)]
pub enum Action {
    /// Frame this serialized payload and write it to the server socket.
    Send(String),
    /// Forward this draw packet to the decode pipeline.
    Decode(Packet),
    /// Ask the renderer collaborator to create a surface for the window.
    CreateSurface { wid: u64, x: i32, y: i32, w: u32, h: u32, title: String, override_redirect: bool },
    /// Hand a decoded rectangle of pixels to the renderer.
    Paint { wid: u64, surface: u64, seq: u64, x: i32, y: i32, w: u32, h: u32, pixels: Vec<u8> },
    /// Tell the renderer to redraw the window's backing to the screen.
    Redraw { wid: u64, surface: u64 },
    /// Tell the renderer to destroy the window's surface.
    DestroySurface { wid: u64, surface: u64 },
}

/// The index of the first window with this wid, or `-1` when none has it.
pub open spec fn spec_index_of_wid(ws: Seq<XpraWindow>, wid: u64) -> int
    decreases ws.len(),
{
    if ws.len() == 0 {
        -1
    } else if ws[0].wid == wid {
        0
    } else {
        let r = spec_index_of_wid(ws.drop_first(), wid);
        if r < 0 {
            -1
        } else {
            r + 1
        }
    }
}

/// Whether some window in the registry has this wid.
pub open spec fn spec_has_wid(ws: Seq<XpraWindow>, wid: u64) -> bool {
    spec_index_of_wid(ws, wid) >= 0
}

/// The registry after removing the window with this wid, if present.
pub open spec fn spec_remove_wid(ws: Seq<XpraWindow>, wid: u64) -> Seq<XpraWindow> {
    if spec_has_wid(ws, wid) {
        ws.remove(spec_index_of_wid(ws, wid))
    } else {
        ws
    }
}

/// The registry after registering a window: it replaces the window with
/// the same wid when one exists, and is appended otherwise.
pub open spec fn spec_insert_window(ws: Seq<XpraWindow>, w: XpraWindow) -> Seq<XpraWindow> {
    if spec_has_wid(ws, w.wid) {
        ws.update(spec_index_of_wid(ws, w.wid), w)
    } else {
        ws.push(w)
    }
}

/// No two windows in the registry share a wid.
pub open spec fn spec_windows_distinct(ws: Seq<XpraWindow>) -> bool {
    forall|i: int, j: int|
        0 <= i < j < ws.len() ==> (#[trigger] ws[i]).wid != (#[trigger] ws[j]).wid
}

/// What `spec_index_of_wid` finds: a non-negative index is the first
/// window with the wid, and a negative one means no window has it.
pub proof fn lemma_index_of_wid(ws: Seq<XpraWindow>, wid: u64)
    ensures
        spec_index_of_wid(ws, wid) >= 0 ==> {
            &&& spec_index_of_wid(ws, wid) < ws.len()
            &&& ws[spec_index_of_wid(ws, wid)].wid == wid
            &&& forall|j: int| 0 <= j < spec_index_of_wid(ws, wid) ==> (#[trigger] ws[j]).wid != wid
        },
        spec_index_of_wid(ws, wid) < 0 ==> forall|j: int|
            0 <= j < ws.len() ==> (#[trigger] ws[j]).wid != wid,
    decreases ws.len(),
{
    if ws.len() != 0 && ws[0].wid != wid {
        lemma_index_of_wid(ws.drop_first(), wid);
        assert(forall|j: int|
            1 <= j < ws.len() ==> #[trigger] ws[j] == ws.drop_first()[j - 1]);
    }
}

/// The first window with a given wid, at the index `spec_index_of_wid`
/// names, judged from any witness index: if `ws[i]` has the wid and no
/// earlier window does, the index is `i`.
pub proof fn lemma_index_of_wid_witness(ws: Seq<XpraWindow>, wid: u64, i: int)
    requires
        0 <= i < ws.len(),
        ws[i].wid == wid,
        forall|j: int| 0 <= j < i ==> (#[trigger] ws[j]).wid != wid,
    ensures
        spec_index_of_wid(ws, wid) == i,
    decreases ws.len(),
{
    if i > 0 {
        assert(forall|j: int|
            1 <= j < ws.len() ==> #[trigger] ws.drop_first()[j - 1] == ws[j]);
        lemma_index_of_wid_witness(ws.drop_first(), wid, i - 1);
    }
}

impl XpraWindow {
    /// The same window model carrying a new title.
    pub open spec fn spec_with_title(self, title: String) -> XpraWindow {
        XpraWindow { title, ..self }
    }

    /// The same window model carrying a new surface handle.
    pub open spec fn spec_with_surface(self, surface: u64) -> XpraWindow {
        XpraWindow { surface, ..self }
    }

    /// The same window model with the mapped flag set.
    pub open spec fn spec_mapped(self) -> XpraWindow {
        XpraWindow { mapped: true, ..self }
    }
}

/// The first window whose renderer surface handle is `handle`, if any.
pub open spec fn spec_window_by_surface(ws: Seq<XpraWindow>, handle: u64) -> Option<XpraWindow>
    decreases ws.len(),
{
    if ws.len() == 0 {
        None
    } else if ws[0].surface == handle {
        Some(ws[0])
    } else {
        spec_window_by_surface(ws.drop_first(), handle)
    }
}

/// A structurally invalid packet: dropped with an error, without touching
/// the connection state.
#[derive(Debug, Clone, Copy, PartialEq, Eq, Structural)]
pub enum ProcessError {
    /// The packet holds no values at all.
    EmptyPacket,
    /// The packet's first element is no non-empty text, so it names no
    /// message type.
    MissingType,
    /// A draw packet without the full nine-slot shape: the decode
    /// pipeline could not acknowledge it, so it is refused rather than
    /// silently dropped.
    TruncatedDraw,
}

/// The message-type tag of a packet: its first element when that is text,
/// and empty otherwise.
pub open spec fn spec_tag(p: Packet) -> Seq<char> {
    match spec_elem(p.main@, 0) {
        Value::Text(s) => s@,
        _ => Seq::empty(),
    }
}

/// The integer in slot `i` of a packet, `0` on any other shape.
pub open spec fn spec_int_at(p: Packet, i: int) -> i64 {
    match spec_elem(p.main@, i) {
        Value::Integer(v) => v,
        _ => 0,
    }
}

/// The text in slot `i` of a packet, empty on any other shape.
pub open spec fn spec_str_at(p: Packet, i: int) -> Seq<char> {
    match spec_elem(p.main@, i) {
        Value::Text(s) => s@,
        _ => Seq::empty(),
    }
}

/// The window id a packet names in slot 1.
pub open spec fn spec_wid_of(p: Packet) -> u64 {
    spec_int_at(p, 1) as u64
}

/// The integer in slot `i` read as a 32-bit size.
pub open spec fn spec_u32_at(p: Packet, i: int) -> u32 {
    (spec_int_at(p, i) as i32) as u32
}

/// The title a new-window packet carries in its slot-6 metadata mapping,
/// empty when absent.
pub open spec fn spec_title_of(p: Packet) -> Seq<char> {
    match spec_elem(p.main@, 6) {
        Value::Mapping(pairs) => (match spec_lookup(pairs@, "title"@) {
            Some(Value::Text(s)) => s@,
            _ => Seq::empty(),
        }),
        _ => Seq::empty(),
    }
}

/// The title a window-metadata packet carries in its slot-2 mapping, if
/// any.
pub open spec fn spec_metadata_title_of(p: Packet) -> Option<String> {
    match spec_elem(p.main@, 2) {
        Value::Mapping(pairs) => (match spec_lookup(pairs@, "title"@) {
            Some(Value::Text(s)) => Some(s),
            _ => None,
        }),
        _ => None,
    }
}

/// The server version a hello packet carries in its slot-1 mapping, if
/// any.
pub open spec fn spec_version_of(p: Packet) -> Option<String> {
    match spec_elem(p.main@, 1) {
        Value::Mapping(pairs) => (match spec_lookup(pairs@, "version"@) {
            Some(Value::Text(s)) => Some(s),
            _ => None,
        }),
        _ => None,
    }
}

/// The window model a new-window packet describes: id and geometry from
/// slots 1 to 5, the title from the slot-6 metadata, not yet mapped, no
/// surface yet.
pub open spec fn spec_new_window_model(p: Packet, override_redirect: bool, win: XpraWindow) -> bool {
    &&& win.wid == spec_wid_of(p)
    &&& win.x == spec_int_at(p, 2) as i32
    &&& win.y == spec_int_at(p, 3) as i32
    &&& win.width == spec_u32_at(p, 4)
    &&& win.height == spec_u32_at(p, 5)
    &&& win.title@ == spec_title_of(p)
    &&& !win.mapped
    &&& win.override_redirect == override_redirect
    &&& win.surface == 0
}

/// The hello step: the session turns active, the server version is
/// recorded from the hello's mapping when it carries one, and nothing else
/// changes.
pub open spec fn spec_hello_step(pre: XpraClient, post: XpraClient, p: Packet) -> bool {
    &&& post.state == SessionState::Active
    &&& post.hello_sent == pre.hello_sent
    &&& post.windows == pre.windows
    &&& (match spec_version_of(p) {
        Some(s) => post.server_version == s,
        None => post.server_version == pre.server_version,
    })
}

/// The new-window step: the described model is registered — replacing a
/// live window with the same wid — and one surface creation is requested
/// with the same id, geometry, title and kind.
pub open spec fn spec_new_window_step(
    pre: XpraClient,
    post: XpraClient,
    p: Packet,
    override_redirect: bool,
    a: Seq<Action>,
) -> bool {
    exists|win: XpraWindow|
        {
            &&& #[trigger] spec_new_window_model(p, override_redirect, win)
            &&& post == (XpraClient { windows: post.windows, ..pre })
            &&& post.windows@ == spec_insert_window(pre.windows@, win)
            &&& a.len() == 1
            &&& (a[0] matches Action::CreateSurface {
                wid: cw,
                x: cx,
                y: cy,
                w: cww,
                h: ch,
                title: ct,
                override_redirect: cor,
            } && cw == win.wid && cx == win.x && cy == win.y && cww == win.width && ch
                == win.height && ct == win.title && cor == override_redirect)
        }
}

/// The lost-window step: the window with the named wid leaves the
/// registry and its surface is destroyed; an absent wid leaves the
/// registry unchanged and requests nothing.
pub open spec fn spec_lost_window_step(
    pre: XpraClient,
    post: XpraClient,
    p: Packet,
    a: Seq<Action>,
) -> bool {
    let wid = spec_wid_of(p);
    &&& post == (XpraClient { windows: post.windows, ..pre })
    &&& post.windows@ == spec_remove_wid(pre.windows@, wid)
    &&& (if spec_has_wid(pre.windows@, wid) {
        a.len() == 1 && (a[0] matches Action::DestroySurface { wid: dw, surface: ds } && dw == wid
            && ds == pre.windows@[spec_index_of_wid(pre.windows@, wid)].surface)
    } else {
        a == Seq::<Action>::empty()
    })
}

/// The window-metadata step: a live window's cached title is updated from
/// the packet's mapping; an unknown wid or a mapping without a title
/// changes nothing.
pub open spec fn spec_window_metadata_step(pre: XpraClient, post: XpraClient, p: Packet) -> bool {
    let wid = spec_wid_of(p);
    let i = spec_index_of_wid(pre.windows@, wid);
    if spec_has_wid(pre.windows@, wid) {
        match spec_metadata_title_of(p) {
            Some(s) => {
                &&& post == (XpraClient { windows: post.windows, ..pre })
                &&& post.windows@ == pre.windows@.update(i, pre.windows@[i].spec_with_title(s))
            },
            None => post == pre,
        }
    } else {
        post == pre
    }
}

/// The draw-decoded actions: for a live window, the pixels are handed to
/// the renderer and the draw is acknowledged with a zero decode time; for
/// an unknown wid the acknowledgment reports `-1` and `window not found!`.
pub open spec fn spec_draw_decoded_actions(pre: XpraClient, p: Packet, a: Seq<Action>) -> bool {
    let wid = spec_wid_of(p);
    let sq = spec_int_at(p, 8) as u64;
    let w = spec_u32_at(p, 4);
    let h = spec_u32_at(p, 5);
    if spec_has_wid(pre.windows@, wid) {
        &&& a.len() == 2
        &&& (a[0] matches Action::Paint {
            wid: pw,
            surface: ps,
            seq: pq,
            x: px,
            y: py,
            w: pww,
            h: ph,
            pixels: pp,
        } && pw == wid && ps == pre.windows@[spec_index_of_wid(pre.windows@, wid)].surface && pq
            == sq && px == spec_int_at(p, 2) as i32 && py == spec_int_at(p, 3) as i32 && pww == w
            && ph == h && pp@ == spec_draw_data(p))
        &&& (a[1] matches Action::Send(s) && s@ == wire::spec_damage_sequence_msg(
            sq,
            wid,
            w as int,
            h as int,
            0,
            ""@,
        ))
    } else {
        &&& a.len() == 1
        &&& (a[0] matches Action::Send(s) && s@ == wire::spec_damage_sequence_msg(
            sq,
            wid,
            w as int,
            h as int,
            -1,
            "window not found!"@,
        ))
    }
}

/// The draw-failed actions: the draw is acknowledged with a `-1` decode
/// time and the failure message the packet carries, whether or not the
/// window is live.
pub open spec fn spec_draw_failed_actions(p: Packet, a: Seq<Action>) -> bool {
    let wid = spec_wid_of(p);
    let sq = spec_int_at(p, 8) as u64;
    &&& a.len() == 1
    &&& (a[0] matches Action::Send(s) && s@ == wire::spec_damage_sequence_msg(
        sq,
        wid,
        spec_u32_at(p, 4) as int,
        spec_u32_at(p, 5) as int,
        -1,
        spec_str_at(p, 7),
    ))
}

/// What processing one packet does: the dispatch table over the packet's
/// message-type tag.  A structurally invalid packet is refused and changes
/// nothing; an unrecognized tag is ignored; everything else steps the
/// session as its tag's row describes.
pub open spec fn spec_process(
    pre: XpraClient,
    post: XpraClient,
    p: Packet,
    r: Result<Vec<Action>, ProcessError>,
) -> bool {
    let t = spec_tag(p);
    if p.main@.len() == 0 {
        &&& r == Err::<Vec<Action>, ProcessError>(ProcessError::EmptyPacket)
        &&& post == pre
    } else if t == Seq::<char>::empty() {
        &&& r == Err::<Vec<Action>, ProcessError>(ProcessError::MissingType)
        &&& post == pre
    } else if t == "draw"@ && p.main@.len() < 9 {
        &&& r == Err::<Vec<Action>, ProcessError>(ProcessError::TruncatedDraw)
        &&& post == pre
    } else {
        r is Ok && {
            let a = (r->Ok_0)@;
            if t == "hello"@ {
                spec_hello_step(pre, post, p) && a == Seq::<Action>::empty()
            } else if t == "new-window"@ {
                spec_new_window_step(pre, post, p, false, a)
            } else if t == "new-override-redirect"@ {
                spec_new_window_step(pre, post, p, true, a)
            } else if t == "lost-window"@ {
                spec_lost_window_step(pre, post, p, a)
            } else if t == "window-metadata"@ {
                spec_window_metadata_step(pre, post, p) && a == Seq::<Action>::empty()
            } else if t == "draw"@ {
                post == pre && a == seq![Action::Decode(p)]
            } else if t == "draw-decoded"@ {
                post == pre && spec_draw_decoded_actions(pre, p, a)
            } else if t == "draw-failed"@ {
                post == pre && spec_draw_failed_actions(p, a)
            } else {
                post == pre && a == Seq::<Action>::empty()
            }
        }
    }
}

/// The session: the server handshake state and the window registry.
#[derive(Debug)]
pub struct XpraClient {
    /// Where the session stands in its lifecycle.
    pub state: SessionState,
    /// Whether the client's own hello was written out.
    pub hello_sent: bool,
    /// The server's version, as its hello reported it.
    pub server_version: String,
    /// The live windows.  Invariant: wids are pairwise distinct.
    pub windows: Vec<XpraWindow>,
}

impl XpraClient {
    /// The registry invariant: no two windows share a wid.
    pub open spec fn wf(&self) -> bool {
        spec_windows_distinct(self.windows@)
    }

    /// A fresh session for an opened socket: the handshake is pending, no
    /// hello was sent, no server version is known, and no window is live.
    pub fn new() -> (r: XpraClient)
        ensures
            r.state == SessionState::HandshakePending,
            !r.hello_sent,
            r.server_version@ == Seq::<char>::empty(),
            r.windows@ == Seq::<XpraWindow>::empty(),
            r.wf(),
    {
        XpraClient {
            state: SessionState::HandshakePending,
            hello_sent: false,
            server_version: String::new(),
            windows: Vec::new(),
        }
    }

    /// Records that the client's hello was written out.
    pub fn mark_hello_sent(&mut self)
        ensures
            *final(self) == (XpraClient { hello_sent: true, ..*old(self) }),
    {
        self.hello_sent = true;
    }

    /// The index of the window with this wid, when one is live.
    fn find_index(&self, wid: u64) -> (r: Option<usize>)
        ensures
            r matches Some(i) ==> spec_has_wid(self.windows@, wid) && i == spec_index_of_wid(
                self.windows@,
                wid,
            ),
            r is None <==> !spec_has_wid(self.windows@, wid),
    {
        let mut i: usize = 0;
        while i < self.windows.len()
            invariant
                i <= self.windows@.len(),
                forall|j: int| 0 <= j < i ==> (#[trigger] self.windows@[j]).wid != wid,
            decreases self.windows@.len() - i,
        {
            if self.windows[i].wid == wid {
                proof {
                    lemma_index_of_wid_witness(self.windows@, wid, i as int);
                }
                return Some(i);
            }
            i += 1;
        }
        proof {
            lemma_index_of_wid(self.windows@, wid);
        }
        None
    }

    /// Registers a window model: a live window with the same wid is
    /// replaced, and a new wid is appended.  Distinctness is preserved.
    fn insert_window(&mut self, w: XpraWindow)
        ensures
            final(self).windows@ == spec_insert_window(old(self).windows@, w),
            *final(self) == (XpraClient { windows: final(self).windows, ..*old(self) }),
            old(self).wf() ==> final(self).wf(),
    {
        proof {
            lemma_index_of_wid(self.windows@, w.wid);
        }
        let ghost pre = self.windows@;
        match self.find_index(w.wid) {
            Some(i) => {
                self.windows[i] = w;
            },
            None => {
                self.windows.push(w);
            },
        }
        proof {
            if old(self).wf() {
                assert(spec_windows_distinct(self.windows@)) by {
                    assert(forall|k: int|
                        0 <= k < pre.len() && pre[k].wid != w.wid ==> (#[trigger] self.windows@[k]).wid
                            == pre[k].wid);
                };
            }
        }
    }

    /// Removes the window with this wid, when one is live, and returns its
    /// model.  An absent wid leaves the registry unchanged.
    fn remove_window(&mut self, wid: u64) -> (r: Option<XpraWindow>)
        ensures
            final(self).windows@ == spec_remove_wid(old(self).windows@, wid),
            *final(self) == (XpraClient { windows: final(self).windows, ..*old(self) }),
            r matches Some(w) ==> spec_has_wid(old(self).windows@, wid) && w == old(
                self,
            ).windows@[spec_index_of_wid(old(self).windows@, wid)],
            r is None <==> !spec_has_wid(old(self).windows@, wid),
            old(self).wf() ==> final(self).wf(),
    {
        proof {
            lemma_index_of_wid(self.windows@, wid);
        }
        match self.find_index(wid) {
            Some(i) => {
                let w = self.windows.remove(i);
                proof {
                    assert(self.windows@ =~= spec_remove_wid(old(self).windows@, wid));
                    if old(self).wf() {
                        assert(spec_windows_distinct(self.windows@));
                    }
                }
                Some(w)
            },
            None => None,
        }
    }

    /// Records the server's hello: the session turns active, and the
    /// server version is taken from the hello's mapping when present.
    fn process_hello(&mut self, p: &Packet)
        ensures
            spec_hello_step(*old(self), *final(self), *p),
            old(self).wf() ==> final(self).wf(),
    {
        self.state = SessionState::Active;
        if p.main.len() > 1 {
            match &p.main[1] {
                Value::Mapping(pairs) => {
                    match crate::value::mapping_get(pairs, "version") {
                        Some(Value::Text(s)) => {
                            self.server_version = s.clone();
                        },
                        _ => {},
                    }
                },
                _ => {},
            }
        }
    }

    /// Creates the window model a new-window packet describes, registers
    /// it by wid, and requests surface creation from the renderer.
    fn process_new_common(&mut self, p: &Packet, override_redirect: bool) -> (a: Vec<Action>)
        ensures
            spec_new_window_step(*old(self), *final(self), *p, override_redirect, a@),
            old(self).wf() ==> final(self).wf(),
    {
        let wid = #[verifier::truncate] (p.get_i64(1) as u64);
        let x = p.get_i32(2);
        let y = p.get_i32(3);
        let w = #[verifier::truncate] (p.get_i32(4) as u32);
        let h = #[verifier::truncate] (p.get_i32(5) as u32);
        let title = p.get_hash_str(6, String::from_str("title"));
        let surface_title = title.clone();
        let win = XpraWindow {
            wid,
            x,
            y,
            width: w,
            height: h,
            title,
            mapped: false,
            override_redirect,
            surface: 0,
        };
        let ghost gwin = win;
        let mut a: Vec<Action> = Vec::new();
        a.push(
            Action::CreateSurface { wid, x, y, w, h, title: surface_title, override_redirect },
        );
        self.insert_window(win);
        proof {
            assert(spec_new_window_model(*p, override_redirect, gwin));
        }
        a
    }

    /// Handles a new-window message.
    fn process_new_window(&mut self, p: &Packet) -> (a: Vec<Action>)
        ensures
            spec_new_window_step(*old(self), *final(self), *p, false, a@),
            old(self).wf() ==> final(self).wf(),
    {
        self.process_new_common(p, false)
    }

    /// Handles a new-override-redirect message.
    fn process_new_override_redirect(&mut self, p: &Packet) -> (a: Vec<Action>)
        ensures
            spec_new_window_step(*old(self), *final(self), *p, true, a@),
            old(self).wf() ==> final(self).wf(),
    {
        self.process_new_common(p, true)
    }

    /// Removes the window a lost-window packet names and asks the
    /// renderer to destroy its surface; an unknown wid is a no-op.
    fn process_lost_window(&mut self, p: &Packet) -> (a: Vec<Action>)
        ensures
            spec_lost_window_step(*old(self), *final(self), *p, a@),
            old(self).wf() ==> final(self).wf(),
    {
        let wid = #[verifier::truncate] (p.get_i64(1) as u64);
        let mut a: Vec<Action> = Vec::new();
        match self.remove_window(wid) {
            Some(w) => {
                a.push(Action::DestroySurface { wid, surface: w.surface });
            },
            None => {},
        }
        a
    }

    /// Updates a live window's cached title from a window-metadata
    /// packet's mapping; an unknown wid, or a mapping without a title, is
    /// ignored.
    fn process_window_metadata(&mut self, p: &Packet)
        ensures
            spec_window_metadata_step(*old(self), *final(self), *p),
            old(self).wf() ==> final(self).wf(),
    {
        let wid = #[verifier::truncate] (p.get_i64(1) as u64);
        let i = match self.find_index(wid) {
            Some(i) => i,
            None => {
                return ;
            },
        };
        proof {
            lemma_index_of_wid(self.windows@, wid);
        }
        if p.main.len() > 2 {
            match &p.main[2] {
                Value::Mapping(pairs) => {
                    match crate::value::mapping_get(pairs, "title") {
                        Some(Value::Text(s)) => {
                            let t = s.clone();
                            let mut w = self.windows.remove(i);
                            w.title = t;
                            self.windows.insert(i, w);
                            proof {
                                assert(self.windows@ =~= old(self).windows@.update(
                                    i as int,
                                    old(self).windows@[i as int].spec_with_title(t),
                                ));
                                if old(self).wf() {
                                    assert(spec_windows_distinct(self.windows@));
                                }
                            }
                        },
                        _ => {},
                    }
                },
                _ => {},
            }
        }
    }

    /// Hands a decoded draw to the renderer and acknowledges it: a live
    /// window gets its pixels and a zero decode time; an unknown wid is
    /// acknowledged with `-1` and `window not found!`.
    fn process_draw_decoded(&self, packet: Packet) -> (a: Vec<Action>)
        ensures
            spec_draw_decoded_actions(*self, packet, a@),
    {
        let wid = #[verifier::truncate] (packet.get_i64(1) as u64);
        let x = packet.get_i32(2);
        let y = packet.get_i32(3);
        let w = #[verifier::truncate] (packet.get_i32(4) as u32);
        let h = #[verifier::truncate] (packet.get_i32(5) as u32);
        let sq = #[verifier::truncate] (packet.get_i64(8) as u64);
        let mut pk = packet;
        let pixels = pk.get_bytes(7);
        let mut a: Vec<Action> = Vec::new();
        match self.find_index(wid) {
            Some(i) => {
                proof {
                    lemma_index_of_wid(self.windows@, wid);
                }
                let surface = self.windows[i].surface;
                a.push(Action::Paint { wid, surface, seq: sq, x, y, w, h, pixels });
                a.push(Action::Send(wire::damage_sequence_payload(sq, wid, w, h, 0, "")));
            },
            None => {
                a.push(
                    Action::Send(
                        wire::damage_sequence_payload(sq, wid, w, h, -1, "window not found!"),
                    ),
                );
            },
        }
        a
    }

    /// Acknowledges a failed draw with a `-1` decode time and the failure
    /// message the packet carries, whatever the window registry holds.
    fn process_draw_failed(&self, p: &Packet) -> (a: Vec<Action>)
        ensures
            spec_draw_failed_actions(*p, a@),
    {
        let wid = #[verifier::truncate] (p.get_i64(1) as u64);
        let w = #[verifier::truncate] (p.get_i32(4) as u32);
        let h = #[verifier::truncate] (p.get_i32(5) as u32);
        let sq = #[verifier::truncate] (p.get_i64(8) as u64);
        let message = p.get_str(7);
        let mut a: Vec<Action> = Vec::new();
        a.push(
            Action::Send(wire::damage_sequence_payload(sq, wid, w, h, -1, message.as_str())),
        );
        a
    }

    /// Interprets one inbound packet: steps the session as the message's
    /// tag demands and returns the actions the dispatch consumer must
    /// perform.  A packet with no values, one without a textual type tag,
    /// and a draw without the full nine-slot shape are refused and change
    /// nothing; an unrecognized tag is ignored.
    pub fn process_packet(&mut self, packet: Packet) -> (r: Result<Vec<Action>, ProcessError>)
        requires
            old(self).wf(),
        ensures
            final(self).wf(),
            spec_process(*old(self), *final(self), packet, r),
    {
        if packet.len() == 0 {
            return Err(ProcessError::EmptyPacket);
        }
        let tag = packet.get_str(0);
        if tag.as_str().is_empty() {
            proof {
                assert(spec_tag(packet) =~= Seq::<char>::empty());
            }
            return Err(ProcessError::MissingType);
        }
        proof {
            lemma_tags_distinct();
        }
        let t = tag.as_str();
        if str_eq(t, "hello") {
            self.process_hello(&packet);
            Ok(Vec::new())
        } else if str_eq(t, "new-window") {
            Ok(self.process_new_window(&packet))
        } else if str_eq(t, "new-override-redirect") {
            Ok(self.process_new_override_redirect(&packet))
        } else if str_eq(t, "lost-window") {
            Ok(self.process_lost_window(&packet))
        } else if str_eq(t, "window-metadata") {
            self.process_window_metadata(&packet);
            Ok(Vec::new())
        } else if str_eq(t, "draw") {
            if packet.len() < 9 {
                return Err(ProcessError::TruncatedDraw);
            }
            let mut a: Vec<Action> = Vec::new();
            a.push(Action::Decode(packet));
            proof {
                assert(a@ =~= seq![Action::Decode(packet)]);
            }
            Ok(a)
        } else if str_eq(t, "draw-decoded") {
            Ok(self.process_draw_decoded(packet))
        } else if str_eq(t, "draw-failed") {
            Ok(self.process_draw_failed(&packet))
        } else {
            Ok(Vec::new())
        }
    }

    /// The wid of the window whose renderer surface handle is `handle`,
    /// or `0` when no live window has it.
    pub fn find_wid(&self, handle: u64) -> (r: u64)
        ensures
            r == (match spec_window_by_surface(self.windows@, handle) {
                Some(w) => w.wid,
                None => 0u64,
            }),
    {
        let mut i: usize = 0;
        proof {
            assert(self.windows@.skip(0) =~= self.windows@);
        }
        while i < self.windows.len()
            invariant
                i <= self.windows@.len(),
                spec_window_by_surface(self.windows@, handle) == spec_window_by_surface(
                    self.windows@.skip(i as int),
                    handle,
                ),
            decreases self.windows@.len() - i,
        {
            proof {
                assert(self.windows@.skip(i as int).drop_first() =~= self.windows@.skip(i + 1));
                assert(self.windows@.skip(i as int)[0] == self.windows@[i as int]);
            }
            if self.windows[i].surface == handle {
                return self.windows[i].wid;
            }
            i += 1;
        }
        proof {
            assert(self.windows@.skip(self.windows@.len() as int) =~= Seq::<XpraWindow>::empty());
        }
        0
    }

    /// Records the surface handle the renderer created for a window.
    /// Returns whether the window is live; an unknown wid changes nothing.
    pub fn set_surface(&mut self, wid: u64, surface: u64) -> (r: bool)
        ensures
            r <==> spec_has_wid(old(self).windows@, wid),
            (if spec_has_wid(old(self).windows@, wid) {
                let i = spec_index_of_wid(old(self).windows@, wid);
                &&& *final(self) == (XpraClient { windows: final(self).windows, ..*old(self) })
                &&& final(self).windows@ == old(self).windows@.update(
                    i,
                    old(self).windows@[i].spec_with_surface(surface),
                )
            } else {
                *final(self) == *old(self)
            }),
            old(self).wf() ==> final(self).wf(),
    {
        let i = match self.find_index(wid) {
            Some(i) => i,
            None => {
                return false;
            },
        };
        proof {
            lemma_index_of_wid(self.windows@, wid);
        }
        let mut w = self.windows.remove(i);
        w.surface = surface;
        self.windows.insert(i, w);
        proof {
            assert(self.windows@ =~= old(self).windows@.update(
                i as int,
                old(self).windows@[i as int].spec_with_surface(surface),
            ));
            if old(self).wf() {
                assert(spec_windows_distinct(self.windows@));
            }
        }
        true
    }

    /// Builds the hello payload for this session from the caller-supplied
    /// identity fields.
    pub fn send_hello(&self, user: &str, username: &str, hostname: &str, uuid: &str) -> (r: String)
        ensures
            r@ == wire::spec_hello_msg(user@, username@, hostname@, uuid@),
    {
        wire::hello_payload(user, username, hostname, uuid)
    }

    /// Builds the focus payload for a window.
    pub fn send_focus(&self, wid: u64) -> (r: String)
        ensures
            r@ == wire::spec_focus_msg(wid),
    {
        wire::focus_payload(wid)
    }

    /// Routes a foreground change: when the handle names a live window
    /// that is no override-redirect popup, focus is sent for its wid;
    /// otherwise nothing happens.
    pub fn handle_foreground(&self, handle: u64) -> (a: Vec<Action>)
        ensures
            (match spec_window_by_surface(self.windows@, handle) {
                Some(w) => {
                    if !w.override_redirect {
                        a@.len() == 1 && (a@[0] matches Action::Send(s) && s@
                            == wire::spec_focus_msg(w.wid))
                    } else {
                        a@ == Seq::<Action>::empty()
                    }
                },
                None => a@ == Seq::<Action>::empty(),
            }),
    {
        let mut i: usize = 0;
        proof {
            assert(self.windows@.skip(0) =~= self.windows@);
        }
        while i < self.windows.len()
            invariant
                i <= self.windows@.len(),
                spec_window_by_surface(self.windows@, handle) == spec_window_by_surface(
                    self.windows@.skip(i as int),
                    handle,
                ),
            decreases self.windows@.len() - i,
        {
            proof {
                assert(self.windows@.skip(i as int).drop_first() =~= self.windows@.skip(i + 1));
                assert(self.windows@.skip(i as int)[0] == self.windows@[i as int]);
            }
            if self.windows[i].surface == handle {
                let mut a: Vec<Action> = Vec::new();
                if !self.windows[i].override_redirect {
                    a.push(Action::Send(wire::focus_payload(self.windows[i].wid)));
                }
                return a;
            }
            i += 1;
        }
        proof {
            assert(self.windows@.skip(self.windows@.len() as int) =~= Seq::<XpraWindow>::empty());
        }
        Vec::new()
    }

    /// Tears the session down: every window leaves the registry with a
    /// request to destroy its surface, and the session is closed.
    pub fn close(&mut self) -> (a: Vec<Action>)
        ensures
            final(self).state == SessionState::Closed,
            final(self).hello_sent == old(self).hello_sent,
            final(self).server_version == old(self).server_version,
            final(self).windows@ == Seq::<XpraWindow>::empty(),
            final(self).wf(),
            a@.len() == old(self).windows@.len(),
            forall|j: int|
                0 <= j < a@.len() ==> #[trigger] spec_destroy_action(a@[j], old(self).windows@[j]),
    {
        let mut a: Vec<Action> = Vec::new();
        let mut i: usize = 0;
        while i < self.windows.len()
            invariant
                *self == *old(self),
                i <= self.windows@.len(),
                a@.len() == i,
                forall|j: int|
                    0 <= j < i ==> #[trigger] spec_destroy_action(a@[j], old(self).windows@[j]),
            decreases self.windows@.len() - i,
        {
            a.push(
                Action::DestroySurface {
                    wid: self.windows[i].wid,
                    surface: self.windows[i].surface,
                },
            );
            i += 1;
        }
        self.windows.clear();
        self.state = SessionState::Closed;
        a
    }
}

/// The message-type tags the dispatch table distinguishes are pairwise
/// different texts.
proof fn lemma_tags_distinct()
    ensures
        "hello"@.len() == 5,
        "new-window"@.len() == 10,
        "new-override-redirect"@.len() == 21,
        "lost-window"@.len() == 11,
        "window-metadata"@.len() == 15,
        "draw"@.len() == 4,
        "draw-decoded"@.len() == 12,
        "draw-failed"@.len() == 11,
        "lost-window"@ != "draw-failed"@,
{
    reveal_strlit("hello");
    reveal_strlit("new-window");
    reveal_strlit("new-override-redirect");
    reveal_strlit("lost-window");
    reveal_strlit("window-metadata");
    reveal_strlit("draw");
    reveal_strlit("draw-decoded");
    reveal_strlit("draw-failed");
    assert("lost-window"@[0] == 'l');
    assert("draw-failed"@[0] == 'd');
}

/// Whether an action asks the renderer to destroy exactly this window's
/// surface.
pub open spec fn spec_destroy_action(a: Action, w: XpraWindow) -> bool {
    a matches Action::DestroySurface { wid, surface } && wid == w.wid && surface == w.surface
}

/// One input or window event from the embedding program, already resolved
/// to plain values: geometry queried from the native window, key names and
/// characters resolved from the key code.
#[derive(Debug)]
pub enum WindowEvent {
    /// The native window was realized; carries its geometry.
    Init { x: i32, y: i32, w: u32, h: u32 },
    /// The native window was moved or resized; carries its geometry.
    Moved { x: i32, y: i32, w: u32, h: u32 },
    /// The native window asks to be repainted.
    Paint,
    /// The pointer moved; carries its position.
    MouseMove { x: i32, y: i32 },
    /// A pointer button went down or up; carries which, and the position.
    MousePress { button: i8, pressed: bool, x: i32, y: i32 },
    /// A key went down.
    KeyPress { keyname: String, keychar: Option<char>, keycode: u32 },
    /// A key went up.
    KeyRelease { keyname: String, keychar: Option<char>, keycode: u32 },
    /// The enter key went down.
    KeyEnter,
    /// The native window was asked to close.
    Close,
    /// Anything else: not handled.
    Other,
}

/// Whether the actions are exactly one send of this payload.
pub open spec fn spec_one_send(a: Seq<Action>, msg: Seq<char>) -> bool {
    a.len() == 1 && (a[0] matches Action::Send(s) && s@ == msg)
}

/// What handling one window event does: which events are handled, what
/// they send, and that only a first realization touches the registry —
/// it sets the window's mapped flag and echoes the geometry in a
/// map-window message.
pub open spec fn spec_window_event_step(
    pre: XpraClient,
    post: XpraClient,
    wid: u64,
    e: WindowEvent,
    handled: bool,
    a: Seq<Action>,
) -> bool {
    let i = spec_index_of_wid(pre.windows@, wid);
    let live = spec_has_wid(pre.windows@, wid);
    match e {
        WindowEvent::Init { x, y, w, h } => {
            if !live {
                post == pre && !handled && a == Seq::<Action>::empty()
            } else if pre.windows@[i].mapped {
                post == pre && handled && a == Seq::<Action>::empty()
            } else {
                &&& post == (XpraClient { windows: post.windows, ..pre })
                &&& post.windows@ == pre.windows@.update(i, pre.windows@[i].spec_mapped())
                &&& handled
                &&& spec_one_send(
                    a,
                    wire::spec_map_window_msg(wid, x as int, y as int, w as int, h as int),
                )
            }
        },
        WindowEvent::Moved { x, y, w, h } => {
            if !live {
                post == pre && !handled && a == Seq::<Action>::empty()
            } else {
                post == pre && handled && spec_one_send(
                    a,
                    wire::spec_configure_window_msg(wid, x as int, y as int, w as int, h as int),
                )
            }
        },
        WindowEvent::Paint => {
            if !live {
                post == pre && !handled && a == Seq::<Action>::empty()
            } else if !pre.windows@[i].mapped {
                post == pre && handled && a == Seq::<Action>::empty()
            } else {
                post == pre && handled && a.len() == 1 && (a[0] matches Action::Redraw {
                    wid: rw,
                    surface: rs,
                } && rw == wid && rs == pre.windows@[i].surface)
            }
        },
        WindowEvent::MouseMove { x, y } => {
            post == pre && handled && spec_one_send(
                a,
                wire::spec_pointer_position_msg(wid, x as int, y as int),
            )
        },
        WindowEvent::MousePress { button, pressed, x, y } => {
            post == pre && handled && spec_one_send(
                a,
                wire::spec_pointer_button_msg(wid, button as int, pressed, x as int, y as int),
            )
        },
        WindowEvent::KeyPress { keyname, keychar, keycode } => {
            post == pre && handled && spec_one_send(
                a,
                wire::spec_key_action_msg(wid, keyname@, true, keychar, keycode),
            )
        },
        WindowEvent::KeyRelease { keyname, keychar, keycode } => {
            post == pre && handled && spec_one_send(
                a,
                wire::spec_key_action_msg(wid, keyname@, false, keychar, keycode),
            )
        },
        WindowEvent::KeyEnter => {
            post == pre && handled && spec_one_send(
                a,
                wire::spec_key_action_msg(wid, "Return"@, true, None, 13),
            )
        },
        WindowEvent::Close => {
            post == pre && handled && spec_one_send(a, wire::spec_close_window_msg(wid))
        },
        WindowEvent::Other => post == pre && !handled && a == Seq::<Action>::empty(),
    }
}

impl XpraClient {
    /// Handles one window or input event from the embedding program:
    /// resolves it against the registry, sends what the protocol asks for,
    /// and reports whether the event was handled.
    pub fn handle_window_event(&mut self, wid: u64, event: WindowEvent) -> (r: (bool, Vec<Action>))
        requires
            old(self).wf(),
        ensures
            final(self).wf(),
            spec_window_event_step(*old(self), *final(self), wid, event, r.0, r.1@),
    {
        match event {
            WindowEvent::Init { x, y, w, h } => {
                let i = match self.find_index(wid) {
                    Some(i) => i,
                    None => {
                        return (false, Vec::new());
                    },
                };
                proof {
                    lemma_index_of_wid(self.windows@, wid);
                }
                if self.windows[i].mapped {
                    return (true, Vec::new());
                }
                let mut win = self.windows.remove(i);
                win.mapped = true;
                self.windows.insert(i, win);
                proof {
                    assert(self.windows@ =~= old(self).windows@.update(
                        i as int,
                        old(self).windows@[i as int].spec_mapped(),
                    ));
                    assert(spec_windows_distinct(self.windows@));
                }
                let mut a: Vec<Action> = Vec::new();
                a.push(Action::Send(wire::map_window_payload(wid, x, y, w, h)));
                (true, a)
            },
            WindowEvent::Moved { x, y, w, h } => {
                if self.find_index(wid).is_none() {
                    return (false, Vec::new());
                }
                let mut a: Vec<Action> = Vec::new();
                a.push(Action::Send(wire::configure_window_payload(wid, x, y, w, h)));
                (true, a)
            },
            WindowEvent::Paint => {
                let i = match self.find_index(wid) {
                    Some(i) => i,
                    None => {
                        return (false, Vec::new());
                    },
                };
                proof {
                    lemma_index_of_wid(self.windows@, wid);
                }
                if !self.windows[i].mapped {
                    return (true, Vec::new());
                }
                let mut a: Vec<Action> = Vec::new();
                a.push(Action::Redraw { wid, surface: self.windows[i].surface });
                (true, a)
            },
            WindowEvent::MouseMove { x, y } => {
                let mut a: Vec<Action> = Vec::new();
                a.push(Action::Send(wire::pointer_position_payload(wid, x, y)));
                (true, a)
            },
            WindowEvent::MousePress { button, pressed, x, y } => {
                let mut a: Vec<Action> = Vec::new();
                a.push(Action::Send(wire::pointer_button_payload(wid, button, pressed, x, y)));
                (true, a)
            },
            WindowEvent::KeyPress { keyname, keychar, keycode } => {
                let mut a: Vec<Action> = Vec::new();
                a.push(
                    Action::Send(
                        wire::key_action_payload(wid, keyname.as_str(), true, keychar, keycode),
                    ),
                );
                (true, a)
            },
            WindowEvent::KeyRelease { keyname, keychar, keycode } => {
                let mut a: Vec<Action> = Vec::new();
                a.push(
                    Action::Send(
                        wire::key_action_payload(wid, keyname.as_str(), false, keychar, keycode),
                    ),
                );
                (true, a)
            },
            WindowEvent::KeyEnter => {
                let mut a: Vec<Action> = Vec::new();
                a.push(Action::Send(wire::key_action_payload(wid, "Return", true, None, 13)));
                (true, a)
            },
            WindowEvent::Close => {
                let mut a: Vec<Action> = Vec::new();
                a.push(Action::Send(wire::close_window_payload(wid)));
                (true, a)
            },
            WindowEvent::Other => (false, Vec::new()),
        }
    }
}

/// The registry invariant holds along every run: stepping a session whose
/// windows have pairwise distinct wids leaves them pairwise distinct — so
/// the registry never holds two entries with one wid, over any sequence of
/// messages — and a lost-window for an absent wid leaves the registry
/// unchanged.
pub proof fn lemma_registry_invariant(
    pre: XpraClient,
    post: XpraClient,
    p: Packet,
    r: Result<Vec<Action>, ProcessError>,
)
    requires
        pre.wf(),
        spec_process(pre, post, p, r),
    ensures
        post.wf(),
        spec_tag(p) == "lost-window"@ && !spec_has_wid(pre.windows@, spec_wid_of(p))
            ==> post.windows@ == pre.windows@,
{
    lemma_tags_distinct();
    let t = spec_tag(p);
    let ws = pre.windows@;
    if p.main@.len() == 0 || t == Seq::<char>::empty() {
    } else if t == "new-window"@ || t == "new-override-redirect"@ {
        let or = t == "new-override-redirect"@;
        let a = (r->Ok_0)@;
        assert(spec_new_window_step(pre, post, p, or, a));
        let win = choose|win: XpraWindow|
            {
                &&& #[trigger] spec_new_window_model(p, or, win)
                &&& post == (XpraClient { windows: post.windows, ..pre })
                &&& post.windows@ == spec_insert_window(pre.windows@, win)
                &&& a.len() == 1
                &&& (a[0] matches Action::CreateSurface {
                    wid: cw,
                    x: cx,
                    y: cy,
                    w: cww,
                    h: ch,
                    title: ct,
                    override_redirect: cor,
                } && cw == win.wid && cx == win.x && cy == win.y && cww == win.width && ch
                    == win.height && ct == win.title && cor == or)
            };
        lemma_index_of_wid(ws, win.wid);
        if spec_has_wid(ws, win.wid) {
            assert forall|x: int, y: int|
                0 <= x < y < post.windows@.len() implies post.windows@[x].wid
                != post.windows@[y].wid by {
                assert(ws[x].wid != ws[y].wid);
            }
        } else {
            assert forall|x: int, y: int|
                0 <= x < y < post.windows@.len() implies post.windows@[x].wid
                != post.windows@[y].wid by {
                if y < ws.len() {
                    assert(ws[x].wid != ws[y].wid);
                } else {
                    assert(post.windows@[y] == win);
                    assert(ws[x].wid != win.wid);
                }
            }
        }
    } else if t == "lost-window"@ {
        let wid = spec_wid_of(p);
        if spec_has_wid(ws, wid) {
            let i = spec_index_of_wid(ws, wid);
            lemma_index_of_wid(ws, wid);
            assert forall|x: int, y: int|
                0 <= x < y < post.windows@.len() implies post.windows@[x].wid
                != post.windows@[y].wid by {
                let px = if x < i {
                    x
                } else {
                    x + 1
                };
                let py = if y < i {
                    y
                } else {
                    y + 1
                };
                assert(post.windows@[x] == ws[px]);
                assert(post.windows@[y] == ws[py]);
                assert(ws[px].wid != ws[py].wid);
            }
        }
    } else if t == "window-metadata"@ {
        let wid = spec_wid_of(p);
        if spec_has_wid(ws, wid) {
            lemma_index_of_wid(ws, wid);
        }
    } else {
    }
}

/// A failed decode is always acknowledged: when a draw packet's data does
/// not decode — a corrupt payload or an unsupported codec tag — the
/// pipeline's outcome packet is tagged `draw-failed`, and dispatching that
/// outcome changes nothing in the session and sends exactly one
/// damage-sequence acknowledgment, carrying the draw's sequence number,
/// window, size, a decode time of `-1`, and the failure message.
pub proof fn lemma_failed_draw_is_acknowledged(
    p: Packet,
    outcome: Packet,
    pre: XpraClient,
    post: XpraClient,
    r: Result<Vec<Action>, ProcessError>,
)
    requires
        p.main@.len() >= 9,
        spec_decode_outcome(spec_draw_coding(p), spec_draw_data(p)) is Err,
        spec_draw_outcome(p, outcome),
        spec_process(pre, post, outcome, r),
    ensures
        post == pre,
        r matches Ok(a) && a@.len() == 1,
        r matches Ok(a) && (a@[0] matches Action::Send(s) && s@ == wire::spec_damage_sequence_msg(
            spec_int_at(p, 8) as u64,
            spec_wid_of(p),
            spec_u32_at(p, 4) as int,
            spec_u32_at(p, 5) as int,
            -1,
            spec_decode_outcome(spec_draw_coding(p), spec_draw_data(p))->Err_0,
        )),
{
    lemma_tags_distinct();
    assert(spec_tag(outcome) == "draw-failed"@);
    assert(outcome.main@[1] == p.main@[1]);
    assert(outcome.main@[4] == p.main@[4]);
    assert(outcome.main@[5] == p.main@[5]);
    assert(outcome.main@[8] == p.main@[8]);
}

} // verus!

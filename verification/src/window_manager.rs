//! Window arrangement rules: layout names, reading the desktop work areas
//! and computing where each game window goes. Talking to the X server
//! happens outside the library.

use vstd::prelude::*;
use crate::text::{lowercase, str_eq, to_lowercase};

verus! {

/// A failure of window management.
#[derive(Debug)]
pub enum WindowManagerError {
    X11rbConnectError(x11rb::errors::ConnectError),
    X11rbError(x11rb::errors::ConnectionError),
    X11rbReplyError(x11rb::errors::ReplyError),
    /// Window and atom whose property data could not be read.
    InvalidPropertyData(u32, u32),
    MonitorDetectionError(String),
    WindowNotFound(Vec<u32>),
}

impl From<x11rb::errors::ConnectError> for WindowManagerError {
    fn from(err: x11rb::errors::ConnectError) -> (r: Self) {
        WindowManagerError::X11rbConnectError(err)
    }
}

impl vstd::std_specs::convert::FromSpecImpl<x11rb::errors::ConnectError> for WindowManagerError {
    open spec fn obeys_from_spec() -> bool {
        true
    }

    open spec fn from_spec(v: x11rb::errors::ConnectError) -> Self {
        WindowManagerError::X11rbConnectError(v)
    }
}

impl From<x11rb::errors::ConnectionError> for WindowManagerError {
    fn from(err: x11rb::errors::ConnectionError) -> (r: Self) {
        WindowManagerError::X11rbError(err)
    }
}

impl vstd::std_specs::convert::FromSpecImpl<x11rb::errors::ConnectionError> for WindowManagerError {
    open spec fn obeys_from_spec() -> bool {
        true
    }

    open spec fn from_spec(v: x11rb::errors::ConnectionError) -> Self {
        WindowManagerError::X11rbError(v)
    }
}

impl From<x11rb::errors::ReplyError> for WindowManagerError {
    fn from(err: x11rb::errors::ReplyError) -> (r: Self) {
        WindowManagerError::X11rbReplyError(err)
    }
}

impl vstd::std_specs::convert::FromSpecImpl<x11rb::errors::ReplyError> for WindowManagerError {
    open spec fn obeys_from_spec() -> bool {
        true
    }

    open spec fn from_spec(v: x11rb::errors::ReplyError) -> Self {
        WindowManagerError::X11rbReplyError(v)
    }
}

/// How game windows are arranged on a monitor.
#[derive(Debug, Clone, Copy, PartialEq, Eq, Structural)]
pub enum Layout {
    /// Side by side.
    Horizontal,
    /// Stacked top to bottom.
    Vertical,
    /// Four quadrants.
    Grid2x2,
    /// Three columns.
    Grid3x1,
}

/// The layout that a lower-cased name selects; unknown names select
/// `Horizontal`.
pub open spec fn layout_for_name(lower: Seq<char>) -> Layout {
    if lower == "vertical"@ {
        Layout::Vertical
    } else if lower == "grid2x2"@ {
        Layout::Grid2x2
    } else if lower == "grid3x1"@ {
        Layout::Grid3x1
    } else {
        Layout::Horizontal
    }
}

/// The layout that a lower-cased name selects (see `layout_for_name`).
pub fn layout_for_lowercase(lower: &str) -> (l: Layout)
    ensures
        l == layout_for_name(lower@),
{
    proof {
        reveal_strlit("vertical");
        reveal_strlit("horizontal");
        reveal_strlit("grid2x2");
        reveal_strlit("grid3x1");
    }
    let l = if str_eq(lower, "vertical") {
        Layout::Vertical
    } else if str_eq(lower, "horizontal") {
        Layout::Horizontal
    } else if str_eq(lower, "grid2x2") {
        Layout::Grid2x2
    } else if str_eq(lower, "grid3x1") {
        Layout::Grid3x1
    } else {
        Layout::Horizontal
    };
    assert("vertical"@.len() == 8 && "horizontal"@.len() == 10);
    assert("grid2x2"@.len() == 7 && "grid3x1"@.len() == 7);
    assert("grid2x2"@[4] != "grid3x1"@[4]);
    l
}

impl<'a> From<&'a str> for Layout {
    /// The layout named by `s`, compared without regard to case.
    fn from(s: &'a str) -> (l: Self) {
        let lower = to_lowercase(s);
        layout_for_lowercase(lower.as_str())
    }
}

impl<'a> vstd::std_specs::convert::FromSpecImpl<&'a str> for Layout {
    open spec fn obeys_from_spec() -> bool {
        true
    }

    open spec fn from_spec(v: &'a str) -> Self {
        layout_for_name(lowercase(v@))
    }
}

/// A usable desktop area, in pixels.
#[derive(Debug, Clone, Copy)]
pub struct Monitor {
    pub x: i32,
    pub y: i32,
    pub width: i32,
    pub height: i32,
}

/// The position and size given to one game window.
#[derive(Debug, Clone, Copy)]
pub struct WindowGeometry {
    pub x: i32,
    pub y: i32,
    pub width: u32,
    pub height: u32,
}

/// The little-endian reading of four bytes.
pub open spec fn le_u32(b0: u8, b1: u8, b2: u8, b3: u8) -> int {
    b0 + 256 * b1 + 65536 * b2 + 16777216 * b3
}

/// The big-endian reading of four bytes.
pub open spec fn be_u32(b0: u8, b1: u8, b2: u8, b3: u8) -> int {
    le_u32(b3, b2, b1, b0)
}

/// `u32::from_ne_bytes`: the four bytes read in the machine's byte order,
/// which is either little- or big-endian; which one is not stated.
#[verifier::external_body]
fn u32_from_ne_bytes(b0: u8, b1: u8, b2: u8, b3: u8) -> (r: u32)
    ensures
        r == le_u32(b0, b1, b2, b3) || r == be_u32(b0, b1, b2, b3),
{
    u32::from_ne_bytes([b0, b1, b2, b3])
}

/// The 32-bit word at byte offset `at` of `v`, in either byte order, is `w`.
pub open spec fn word_at(v: Seq<u8>, at: int, w: u32) -> bool {
    ||| w == le_u32(v[at], v[at + 1], v[at + 2], v[at + 3])
    ||| w == be_u32(v[at], v[at + 1], v[at + 2], v[at + 3])
}

/// Monitor `m` is what the 16 bytes of `v` at `at` describe: x, y, width
/// and height as machine-order 32-bit words, each reinterpreted as signed.
pub open spec fn monitor_from_bytes(v: Seq<u8>, at: int, m: Monitor) -> bool {
    &&& word_at(v, at, m.x as u32)
    &&& word_at(v, at + 4, m.y as u32)
    &&& word_at(v, at + 8, m.width as u32)
    &&& word_at(v, at + 12, m.height as u32)
}

/// Reads the `_NET_WORKAREA` property of the root window `root` (property
/// atom `atom`): one monitor per 16 bytes. An empty property is a monitor
/// detection error; a length that is not a multiple of 16 is invalid
/// property data.
pub fn monitors_from_workarea(value: &[u8], root: u32, atom: u32) -> (r: Result<Vec<Monitor>, WindowManagerError>)
    ensures
        value@.len() == 0 ==> r matches Err(WindowManagerError::MonitorDetectionError(_)),
        value@.len() > 0 && value@.len() % 16 != 0 ==> (r matches Err(
            WindowManagerError::InvalidPropertyData(w, a),
        ) && w == root && a == atom),
        value@.len() > 0 && value@.len() % 16 == 0 ==> (r matches Ok(ms) && ms@.len() == value@.len() / 16
            && forall|i: int| 0 <= i < ms@.len() ==> monitor_from_bytes(value@, 16 * i, #[trigger] ms@[i])),
{
    if value.len() == 0 {
        return Err(WindowManagerError::MonitorDetectionError(
            crate::text::owned("_NET_WORKAREA property not available"),
        ));
    }
    if value.len() % 16 != 0 {
        return Err(WindowManagerError::InvalidPropertyData(root, atom));
    }
    let count = value.len() / 16;
    let mut monitors: Vec<Monitor> = Vec::new();
    let mut i: usize = 0;
    while i < count
        invariant
            count == value@.len() / 16,
            value@.len() % 16 == 0,
            i <= count,
            monitors@.len() == i,
            forall|k: int| 0 <= k < i ==> monitor_from_bytes(value@, 16 * k, #[trigger] monitors@[k]),
        decreases count - i,
    {
        assert(16 * i + 16 <= value@.len()) by (nonlinear_arith)
            requires
                i < count,
                count == value@.len() / 16,
                value@.len() % 16 == 0;
        assert(value@.len() == value.len());
        let b = 16 * i;
        let x = u32_from_ne_bytes(value[b], value[b + 1], value[b + 2], value[b + 3]);
        let y = u32_from_ne_bytes(value[b + 4], value[b + 5], value[b + 6], value[b + 7]);
        let w = u32_from_ne_bytes(value[b + 8], value[b + 9], value[b + 10], value[b + 11]);
        let h = u32_from_ne_bytes(value[b + 12], value[b + 13], value[b + 14], value[b + 15]);
        let m = Monitor {
            x: #[verifier::truncate] (x as i32),
            y: #[verifier::truncate] (y as i32),
            width: #[verifier::truncate] (w as i32),
            height: #[verifier::truncate] (h as i32),
        };
        proof {
            assert((x as i32) as u32 == x) by (bit_vector);
            assert((y as i32) as u32 == y) by (bit_vector);
            assert((w as i32) as u32 == w) by (bit_vector);
            assert((h as i32) as u32 == h) by (bit_vector);
        }
        monitors.push(m);
        i = i + 1;
    }
    Ok(monitors)
}

/// Rust's `/` on signed integers: the quotient rounded toward zero
/// (for a positive divisor).
pub open spec fn div_toward_zero(a: int, b: int) -> int {
    if a >= 0 { a / b } else { -((-a) / b) }
}

/// Where window `i` of `n` goes, as unbounded integers (x, y, width,
/// height). Windows are dealt round-robin over the monitors; on its monitor
/// a window takes the slot given by its rank there. Horizontal and vertical
/// layouts split the monitor evenly among the windows it receives; the grid
/// layouts place windows by their overall index in cells of half or a third
/// of the monitor.
pub open spec fn placement(monitors: Seq<Monitor>, n: int, i: int, layout: Layout) -> (int, int, int, int) {
    let count = monitors.len() as int;
    let mi = i % count;
    let m = monitors[mi];
    let rank = i / count;
    let on_monitor = (n + count - 1 - mi) / count;
    let share = if on_monitor > 1 { on_monitor } else { 1 };
    match layout {
        Layout::Horizontal => {
            let w = div_toward_zero(m.width as int, share);
            (m.x + rank * w, m.y as int, w, m.height as int)
        },
        Layout::Vertical => {
            let h = div_toward_zero(m.height as int, share);
            (m.x as int, m.y + rank * h, m.width as int, h)
        },
        Layout::Grid2x2 => {
            let w = div_toward_zero(m.width as int, 2);
            let h = div_toward_zero(m.height as int, 2);
            (m.x + (i % 2) * w, m.y + ((i / 2) % 2) * h, w, h)
        },
        Layout::Grid3x1 => {
            let w = div_toward_zero(m.width as int, 3);
            (m.x + (i % 3) * w, m.y as int, w, m.height as int)
        },
    }
}

/// The position of window `i` fits in 32-bit signed integers.
pub open spec fn placement_fits(monitors: Seq<Monitor>, n: int, i: int, layout: Layout) -> bool {
    let p = placement(monitors, n, i, layout);
    &&& i32::MIN <= p.0 <= i32::MAX
    &&& i32::MIN <= p.1 <= i32::MAX
}

/// `g` is the placement of window `i`, sizes reinterpreted as unsigned.
pub open spec fn geometry_is(g: WindowGeometry, monitors: Seq<Monitor>, n: int, i: int, layout: Layout) -> bool {
    let p = placement(monitors, n, i, layout);
    &&& g.x == p.0
    &&& g.y == p.1
    &&& g.width == p.2 as u32
    &&& g.height == p.3 as u32
}

proof fn lemma_div_toward_zero_bound(a: int, b: int)
    requires
        b >= 1,
        i32::MIN <= a <= i32::MAX,
    ensures
        i32::MIN <= div_toward_zero(a, b) <= i32::MAX,
        div_toward_zero(a, b) == 0 || (a >= 0) == (div_toward_zero(a, b) >= 0),
{
    if a >= 0 {
        assert(a / b <= a) by (nonlinear_arith)
            requires
                a >= 0,
                b >= 1;
        assert(a / b >= 0) by (nonlinear_arith)
            requires
                a >= 0,
                b >= 1;
    } else {
        assert((-a) / b <= -a) by (nonlinear_arith)
            requires
                -a >= 0,
                b >= 1;
        assert((-a) / b >= 0) by (nonlinear_arith)
            requires
                -a >= 0,
                b >= 1;
    }
}

/// Divides as Rust's `/` does on signed integers, by a positive divisor.
fn div_i64(a: i64, b: i64) -> (q: i64)
    requires
        b >= 1,
        i32::MIN <= a <= i32::MAX,
    ensures
        q == div_toward_zero(a as int, b as int),
{
    a / b
}

/// Offset `base + k * step` computed without overflow, or `None` when it
/// leaves the 32-bit signed range.
fn offset_in_range(base: i32, k: i64, step: i64) -> (r: Option<i32>)
    requires
        0 <= k <= i32::MAX,
        i32::MIN <= step <= i32::MAX,
    ensures
        match r {
            Some(v) => v == base + k * step,
            None => !(i32::MIN <= base + k * step <= i32::MAX),
        },
{
    assert(-0x4000_0000_0000_0000 <= k * step <= 0x4000_0000_0000_0000) by (nonlinear_arith)
        requires
            0 <= k <= i32::MAX,
            i32::MIN <= step <= i32::MAX;
    let v = (base as i64) + k * step;
    if v < i32::MIN as i64 || v > i32::MAX as i64 {
        None
    } else {
        Some(v as i32)
    }
}

/// Computes where each of `num_windows` game windows goes (see
/// `placement`), in window order. `None` when a position would leave the
/// 32-bit signed range of screen coordinates.
pub fn plan_layout(monitors: &Vec<Monitor>, num_windows: usize, layout: Layout) -> (r: Option<Vec<WindowGeometry>>)
    requires
        monitors@.len() > 0,
        num_windows <= i32::MAX,
        num_windows + monitors@.len() <= usize::MAX,
    ensures
        match r {
            Some(gs) => gs@.len() == num_windows
                && forall|i: int| 0 <= i < num_windows ==> geometry_is(#[trigger] gs@[i], monitors@, num_windows as int, i, layout),
            None => exists|i: int| 0 <= i < num_windows && !placement_fits(monitors@, num_windows as int, i, layout),
        },
{
    let count = monitors.len();
    let mut out: Vec<WindowGeometry> = Vec::new();
    let mut i: usize = 0;
    while i < num_windows
        invariant
            count == monitors@.len(),
            count > 0,
            num_windows <= i32::MAX,
            num_windows + count <= usize::MAX,
            i <= num_windows,
            out@.len() == i,
            forall|k: int| 0 <= k < i ==> geometry_is(#[trigger] out@[k], monitors@, num_windows as int, k, layout),
        decreases num_windows - i,
    {
        let mi = i % count;
        let m = monitors[mi];
        let rank = i / count;
        let on_monitor = (num_windows + count - 1 - mi) / count;
        let share: usize = if on_monitor > 1 { on_monitor } else { 1 };
        proof {
            assert(rank <= i) by (nonlinear_arith)
                requires
                    rank as int == i as int / count as int,
                    count > 0;
            assert(on_monitor <= num_windows + 1) by (nonlinear_arith)
                requires
                    on_monitor as int == (num_windows + count - 1 - mi) as int / count as int,
                    count > 0,
                    mi < count;
            lemma_div_toward_zero_bound(m.width as int, share as int);
            lemma_div_toward_zero_bound(m.height as int, share as int);
            lemma_div_toward_zero_bound(m.width as int, 2);
            lemma_div_toward_zero_bound(m.height as int, 2);
            lemma_div_toward_zero_bound(m.width as int, 3);
        }
        let ghost p = placement(monitors@, num_windows as int, i as int, layout);
        let g = match layout {
            Layout::Horizontal => {
                let w = div_i64(m.width as i64, share as i64);
                match offset_in_range(m.x, rank as i64, w) {
                    Some(x) => Some(WindowGeometry { x, y: m.y, width: w as u32, height: m.height as u32 }),
                    None => None,
                }
            },
            Layout::Vertical => {
                let h = div_i64(m.height as i64, share as i64);
                match offset_in_range(m.y, rank as i64, h) {
                    Some(y) => Some(WindowGeometry { x: m.x, y, width: m.width as u32, height: h as u32 }),
                    None => None,
                }
            },
            Layout::Grid2x2 => {
                let w = div_i64(m.width as i64, 2);
                let h = div_i64(m.height as i64, 2);
                match (offset_in_range(m.x, (i % 2) as i64, w), offset_in_range(m.y, ((i / 2) % 2) as i64, h)) {
                    (Some(x), Some(y)) => Some(WindowGeometry { x, y, width: w as u32, height: h as u32 }),
                    _ => None,
                }
            },
            Layout::Grid3x1 => {
                let w = div_i64(m.width as i64, 3);
                match offset_in_range(m.x, (i % 3) as i64, w) {
                    Some(x) => Some(WindowGeometry { x, y: m.y, width: w as u32, height: m.height as u32 }),
                    None => None,
                }
            },
        };
        match g {
            Some(g) => {
                assert(geometry_is(g, monitors@, num_windows as int, i as int, layout));
                out.push(g);
            },
            None => {
                assert(!placement_fits(monitors@, num_windows as int, i as int, layout));
                return None;
            },
        }
        i = i + 1;
    }
    Some(out)
}

/// Whether a `_NET_WM_PID` property value names process `pid`: it must be
/// a single 32-bit word, in the machine's byte order, equal to `pid`. Which
/// byte order the machine uses is not stated, so the result is fixed
/// wherever both orders agree: it is true when the word reads as `pid` in
/// both orders, false when it reads as `pid` in neither.
pub fn pid_property_matches(value: &[u8], pid: u32) -> (b: bool)
    ensures
        value@.len() != 4 ==> !b,
        value@.len() == 4 && b ==> word_at(value@, 0, pid),
        value@.len() == 4 && !word_at(value@, 0, pid) ==> !b,
        value@.len() == 4 && pid == le_u32(value@[0], value@[1], value@[2], value@[3]) && pid == be_u32(
            value@[0],
            value@[1],
            value@[2],
            value@[3],
        ) ==> b,
{
    if value.len() != 4 {
        return false;
    }
    let w = u32_from_ne_bytes(value[0], value[1], value[2], value[3]);
    w == pid
}

/// The longest wait between two searches for game windows, in
/// milliseconds.
pub open spec fn max_retry_delay_ms() -> int {
    500
}

/// The wait before the next search for game windows: twice the last one,
/// but at most 500 ms.
pub fn next_retry_delay_ms(current_ms: u64) -> (next: u64)
    ensures
        next == if 2 * current_ms > max_retry_delay_ms() { max_retry_delay_ms() } else { 2 * current_ms },
{
    if current_ms > 250 {
        500
    } else {
        current_ms * 2
    }
}

/// The window found for `pid` in a list of (pid, window) pairs, if any.
pub open spec fn window_for(found: Seq<(u32, u32)>, pid: u32) -> Option<u32>
    decreases found.len(),
{
    if found.len() == 0 {
        None
    } else if found[0].0 == pid {
        Some(found[0].1)
    } else {
        window_for(found.drop_first(), pid)
    }
}

/// The windows to arrange, in the order of `pids`: each pid whose window
/// was found contributes it, with its pid.
pub open spec fn ordered_windows_of(pids: Seq<u32>, found: Seq<(u32, u32)>) -> Seq<(u32, u32)>
    decreases pids.len(),
{
    if pids.len() == 0 {
        Seq::empty()
    } else {
        let prev = ordered_windows_of(pids.drop_last(), found);
        match window_for(found, pids.last()) {
            Some(w) => prev.push((pids.last(), w)),
            None => prev,
        }
    }
}

/// The window found for `pid`, if any.
fn lookup_window(found: &Vec<(u32, u32)>, pid: u32) -> (r: Option<u32>)
    ensures
        r == window_for(found@, pid),
{
    let mut i: usize = 0;
    assert(found@.subrange(0, found@.len() as int) =~= found@);
    while i < found.len()
        invariant
            i <= found@.len(),
            window_for(found@, pid) == window_for(found@.subrange(i as int, found@.len() as int), pid),
        decreases found.len() - i,
    {
        proof {
            assert(found@.subrange(i as int, found@.len() as int).drop_first() =~= found@.subrange(
                i + 1,
                found@.len() as int,
            ));
        }
        if found[i].0 == pid {
            return Some(found[i].1);
        }
        i = i + 1;
    }
    proof {
        assert(found@.subrange(i as int, found@.len() as int) =~= Seq::<(u32, u32)>::empty());
    }
    None
}

/// The windows to arrange, in the order of `pids` (see
/// `ordered_windows_of`).
pub fn ordered_windows(pids: &[u32], found: &Vec<(u32, u32)>) -> (r: Vec<(u32, u32)>)
    ensures
        r@ == ordered_windows_of(pids@, found@),
{
    let mut r: Vec<(u32, u32)> = Vec::new();
    let mut i: usize = 0;
    while i < pids.len()
        invariant
            i <= pids@.len(),
            r@ == ordered_windows_of(pids@.subrange(0, i as int), found@),
        decreases pids.len() - i,
    {
        proof {
            assert(pids@.subrange(0, i + 1).drop_last() =~= pids@.subrange(0, i as int));
        }
        if let Some(w) = lookup_window(found, pids[i]) {
            r.push((pids[i], w));
        }
        i = i + 1;
    }
    assert(pids@.subrange(0, i as int) =~= pids@);
    r
}

proof fn lemma_same_monitor_next(i: int, count: int)
    requires
        i >= 0,
        count > 0,
    ensures
        (i + count) % count == i % count,
        (i + count) / count == i / count + 1,
{
    assert((i + count) % count == i % count && (i + count) / count == i / count + 1) by (nonlinear_arith)
        requires
            i >= 0,
            count > 0;
}

proof fn lemma_rank_below_share(i: int, n: int, count: int)
    requires
        0 <= i < n,
        count > 0,
    ensures
        i / count + 1 <= (n + count - 1 - i % count) / count,
{
    let q = i / count;
    let r = i % count;
    assert(i == q * count + r && 0 <= r < count) by (nonlinear_arith)
        requires
            count > 0,
            q == i / count,
            r == i % count;
    assert((q + 1) * count <= n + count - 1 - r) by (nonlinear_arith)
        requires
            i == q * count + r,
            i < n,
            count > 0;
    assert(q + 1 <= (n + count - 1 - r) / count) by (nonlinear_arith)
        requires
            (q + 1) * count <= n + count - 1 - r,
            count > 0;
}

/// In the horizontal layout the windows of a monitor sit side by side from
/// its left edge: the next window on the same monitor starts exactly where
/// this one ends, and (for a monitor of non-negative width) no window
/// reaches past the monitor's right edge.
pub proof fn horizontal_tiles_side_by_side(monitors: Seq<Monitor>, n: int, i: int)
    requires
        monitors.len() > 0,
        0 <= i < n,
    ensures
        ({
            let count = monitors.len() as int;
            let p = placement(monitors, n, i, Layout::Horizontal);
            &&& i + count < n ==> placement(monitors, n, i + count, Layout::Horizontal).0 == p.0 + p.2
            &&& monitors[i % count].width >= 0 ==> p.0 + p.2 <= monitors[i % count].x + monitors[i % count].width
        }),
{
    let count = monitors.len() as int;
    let mi = i % count;
    let m = monitors[mi];
    let rank = i / count;
    let on_monitor = (n + count - 1 - mi) / count;
    let share = if on_monitor > 1 { on_monitor } else { 1 };
    let w = div_toward_zero(m.width as int, share);
    lemma_same_monitor_next(i, count);
    assert((rank + 1) * w == rank * w + w) by (nonlinear_arith);
    lemma_rank_below_share(i, n, count);
    if m.width >= 0 {
        assert(w >= 0 && share * w <= m.width) by (nonlinear_arith)
            requires
                m.width >= 0,
                share >= 1,
                w == (m.width as int) / share;
        assert((rank + 1) * w <= share * w) by (nonlinear_arith)
            requires
                rank + 1 <= share,
                w >= 0;
    }
}


/// In the vertical layout the windows of a monitor are stacked from its top
/// edge: the next window on the same monitor starts exactly where this one
/// ends, and (for a monitor of non-negative height) no window reaches past
/// the monitor's bottom edge.
pub proof fn vertical_tiles_stack(monitors: Seq<Monitor>, n: int, i: int)
    requires
        monitors.len() > 0,
        0 <= i < n,
    ensures
        ({
            let count = monitors.len() as int;
            let p = placement(monitors, n, i, Layout::Vertical);
            &&& i + count < n ==> placement(monitors, n, i + count, Layout::Vertical).1 == p.1 + p.3
            &&& monitors[i % count].height >= 0 ==> p.1 + p.3 <= monitors[i % count].y + monitors[i % count].height
        }),
{
    let count = monitors.len() as int;
    let mi = i % count;
    let m = monitors[mi];
    let rank = i / count;
    let on_monitor = (n + count - 1 - mi) / count;
    let share = if on_monitor > 1 { on_monitor } else { 1 };
    let h = div_toward_zero(m.height as int, share);
    lemma_same_monitor_next(i, count);
    assert((rank + 1) * h == rank * h + h) by (nonlinear_arith);
    lemma_rank_below_share(i, n, count);
    if m.height >= 0 {
        assert(h >= 0 && share * h <= m.height) by (nonlinear_arith)
            requires
                m.height >= 0,
                share >= 1,
                h == (m.height as int) / share;
        assert((rank + 1) * h <= share * h) by (nonlinear_arith)
            requires
                rank + 1 <= share,
                h >= 0;
    }
}

/// How long the windows of the games are searched for, in milliseconds.
pub open spec fn window_search_limit_ms() -> int {
    30000
}

/// What the window search does next.
#[derive(Debug, Clone, Copy, PartialEq, Eq, Structural)]
pub enum SearchDecision {
    /// Every window was found: arrange them.
    Arrange,
    /// Search again for the windows not found yet.
    SearchAgain,
    /// Time is up with windows still missing.
    GiveUp,
}

/// The decision before each pass of the window search, given how many
/// windows are still missing and how long the search has run.
pub fn window_search_next(missing: usize, elapsed_ms: u64) -> (d: SearchDecision)
    ensures
        missing == 0 ==> d == SearchDecision::Arrange,
        missing > 0 && elapsed_ms < window_search_limit_ms() ==> d == SearchDecision::SearchAgain,
        missing > 0 && elapsed_ms >= window_search_limit_ms() ==> d == SearchDecision::GiveUp,
{
    if missing == 0 {
        SearchDecision::Arrange
    } else if elapsed_ms < 30000 {
        SearchDecision::SearchAgain
    } else {
        SearchDecision::GiveUp
    }
}

/// The pids whose window was not found in a pass, in order.
pub open spec fn still_missing(pids: Seq<u32>, results: Seq<Option<u32>>) -> Seq<u32>
    decreases pids.len(),
{
    if pids.len() == 0 {
        Seq::empty()
    } else {
        let prev = still_missing(pids.drop_last(), results);
        let k = pids.len() - 1;
        if k < results.len() && results[k] is Some {
            prev
        } else {
            prev.push(pids.last())
        }
    }
}

/// The (pid, window) pairs found in a pass, in order.
pub open spec fn found_in_pass(pids: Seq<u32>, results: Seq<Option<u32>>) -> Seq<(u32, u32)>
    decreases pids.len(),
{
    if pids.len() == 0 {
        Seq::empty()
    } else {
        let prev = found_in_pass(pids.drop_last(), results);
        let k = pids.len() - 1;
        if k < results.len() && results[k] is Some {
            prev.push((pids.last(), results[k]->0))
        } else {
            prev
        }
    }
}

/// Records one pass of the window search: `results[i]` is the window found
/// for `pids[i]`, if any. The windows found are added to `found`; the pids
/// still without a window are returned, in order (a pid without a result
/// counts as not found).
pub fn record_search_pass(found: &mut Vec<(u32, u32)>, pids: &Vec<u32>, results: &Vec<Option<u32>>) -> (missing: Vec<u32>)
    ensures
        final(found)@ == old(found)@ + found_in_pass(pids@, results@),
        missing@ == still_missing(pids@, results@),
{
    let mut missing: Vec<u32> = Vec::new();
    let mut i: usize = 0;
    assert(old(found)@ + found_in_pass(pids@.subrange(0, 0), results@) =~= old(found)@);
    while i < pids.len()
        invariant
            i <= pids@.len(),
            found@ == old(found)@ + found_in_pass(pids@.subrange(0, i as int), results@),
            missing@ == still_missing(pids@.subrange(0, i as int), results@),
        decreases pids.len() - i,
    {
        proof {
            assert(pids@.subrange(0, i + 1).drop_last() =~= pids@.subrange(0, i as int));
            assert(pids@.subrange(0, i + 1).last() == pids@[i as int]);
        }
        if i < results.len() {
            match results[i] {
                Some(w) => {
                    found.push((pids[i], w));
                    assert(found@ =~= old(found)@ + found_in_pass(pids@.subrange(0, i + 1), results@));
                },
                None => {
                    missing.push(pids[i]);
                },
            }
        } else {
            missing.push(pids[i]);
        }
        i = i + 1;
    }
    assert(pids@.subrange(0, i as int) =~= pids@);
    missing
}

/// Rectangle `a` and rectangle `b` (x, y, width, height) do not overlap:
/// one lies entirely to the left of, to the right of, above or below the
/// other.
pub open spec fn rects_disjoint(a: (int, int, int, int), b: (int, int, int, int)) -> bool {
    ||| a.0 + a.2 <= b.0
    ||| b.0 + b.2 <= a.0
    ||| a.1 + a.3 <= b.1
    ||| b.1 + b.3 <= a.1
}

/// Rectangle `r` lies within monitor `m`.
pub open spec fn rect_within(r: (int, int, int, int), m: Monitor) -> bool {
    &&& m.x <= r.0
    &&& r.0 + r.2 <= m.x + m.width
    &&& m.y <= r.1
    &&& r.1 + r.3 <= m.y + m.height
}

/// In the 2x2 grid, each of the first four windows lies within its monitor,
/// and two of them placed on the same monitor never overlap: the first four
/// windows of a single monitor fill its four quadrants.
pub proof fn grid2x2_fills_quadrants(monitors: Seq<Monitor>, n: int, i: int, j: int)
    requires
        monitors.len() > 0,
        0 <= i < 4,
        0 <= j < 4,
        i != j,
        i % (monitors.len() as int) == j % (monitors.len() as int),
        monitors[i % (monitors.len() as int)].width >= 0,
        monitors[i % (monitors.len() as int)].height >= 0,
    ensures
        rect_within(placement(monitors, n, i, Layout::Grid2x2), monitors[i % (monitors.len() as int)]),
        rects_disjoint(placement(monitors, n, i, Layout::Grid2x2), placement(monitors, n, j, Layout::Grid2x2)),
{
    let m = monitors[i % (monitors.len() as int)];
    let w = div_toward_zero(m.width as int, 2);
    let h = div_toward_zero(m.height as int, 2);
    assert(w >= 0 && 2 * w <= m.width);
    assert(h >= 0 && 2 * h <= m.height);
    lemma_grid2x2_cell(monitors, n, i, m, w, h);
    lemma_grid2x2_cell(monitors, n, j, m, w, h);
}

/// Window `k` (of the first four) of the 2x2 grid on monitor `m` takes
/// column `k % 2` and row `k / 2`.
proof fn lemma_grid2x2_cell(monitors: Seq<Monitor>, n: int, k: int, m: Monitor, w: int, h: int)
    requires
        monitors.len() > 0,
        0 <= k < 4,
        m == monitors[k % (monitors.len() as int)],
        w == div_toward_zero(m.width as int, 2),
        h == div_toward_zero(m.height as int, 2),
    ensures
        placement(monitors, n, k, Layout::Grid2x2) == (
            m.x + if k % 2 == 0 { 0 } else { w },
            m.y + if k < 2 { 0 } else { h },
            w,
            h,
        ),
{
    if k == 0 {
        assert(k % 2 == 0 && (k / 2) % 2 == 0);
    } else if k == 1 {
        assert(k % 2 == 1 && (k / 2) % 2 == 0);
    } else if k == 2 {
        assert(k % 2 == 0 && (k / 2) % 2 == 1);
    } else {
        assert(k % 2 == 1 && (k / 2) % 2 == 1);
    }
}

/// In the 3x1 grid, each of the first three windows lies within its monitor,
/// and two of them placed on the same monitor never overlap.
pub proof fn grid3x1_fills_thirds(monitors: Seq<Monitor>, n: int, i: int, j: int)
    requires
        monitors.len() > 0,
        0 <= i < 3,
        0 <= j < 3,
        i != j,
        i % (monitors.len() as int) == j % (monitors.len() as int),
        monitors[i % (monitors.len() as int)].width >= 0,
        monitors[i % (monitors.len() as int)].height >= 0,
    ensures
        rect_within(placement(monitors, n, i, Layout::Grid3x1), monitors[i % (monitors.len() as int)]),
        rects_disjoint(placement(monitors, n, i, Layout::Grid3x1), placement(monitors, n, j, Layout::Grid3x1)),
{
    let m = monitors[i % (monitors.len() as int)];
    let w = div_toward_zero(m.width as int, 3);
    assert(w >= 0 && 3 * w <= m.width);
    lemma_grid3x1_cell(monitors, n, i, m, w);
    lemma_grid3x1_cell(monitors, n, j, m, w);
}

/// Window `k` (of the first three) of the 3x1 grid on monitor `m` takes
/// column `k`.
proof fn lemma_grid3x1_cell(monitors: Seq<Monitor>, n: int, k: int, m: Monitor, w: int)
    requires
        monitors.len() > 0,
        0 <= k < 3,
        m == monitors[k % (monitors.len() as int)],
        w == div_toward_zero(m.width as int, 3),
    ensures
        placement(monitors, n, k, Layout::Grid3x1) == (
            m.x + if k == 0 { 0 } else if k == 1 { w } else { 2 * w },
            m.y as int,
            w,
            m.height as int,
        ),
{
    assert(k % 3 == k);
    if k == 1 {
        assert(k * w == w);
    } else if k == 2 {
        assert(k * w == 2 * w);
    }
}

/// On a single monitor the grids repeat: window `i + 4` of the 2x2 grid
/// takes the same cell as window `i`, and window `i + 3` of the 3x1 grid
/// the same column as window `i`.
pub proof fn single_monitor_grids_repeat(monitors: Seq<Monitor>, n: int, i: int)
    requires
        monitors.len() == 1,
        i >= 0,
    ensures
        placement(monitors, n, i + 4, Layout::Grid2x2) == placement(monitors, n, i, Layout::Grid2x2),
        placement(monitors, n, i + 3, Layout::Grid3x1) == placement(monitors, n, i, Layout::Grid3x1),
{
    assert((i + 4) % 1 == 0 && i % 1 == 0);
    assert((i + 3) % 1 == 0);
    assert((i + 4) % 2 == i % 2);
    assert((i + 4) / 2 == i / 2 + 2);
    assert((i / 2 + 2) % 2 == (i / 2) % 2);
    assert((i + 3) % 3 == i % 3);
}

} // verus!

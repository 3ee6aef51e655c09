//! The X11 side of window placement: what `xdotool` and `xprop` print,
//! and the geometry that centres a window on a monitor.  The application
//! runs the commands and asks GDK for monitors; this module reads their
//! output and computes positions in physical pixels.
use vstd::prelude::*;
use crate::number::{parse_i32, parse_signed};
use crate::text::{
    chars_of, copy_range, join, join_exec, lines, lines_of, split, split_chars,
    starts_with, starts_with_exec, string_from, views, trim, trim_chars, utf8_lossy, lossy_chars,
};

verus! {

/// A rectangle in physical pixels.
#[derive(Debug, Clone, Copy, PartialEq, Eq, Structural)]
pub struct Geometry {
    pub x: i32,
    pub y: i32,
    pub width: i32,
    pub height: i32,
}

/// The value of a `KEY=value` line as an `i32`, if it is one.
pub open spec fn kv_number(line: Seq<char>, key: Seq<char>) -> Option<i32> {
    match parse_signed(line.subrange(key.len() as int, line.len() as int), i32::MIN as int, i32::MAX as int) {
        Some(v) => Some(v as i32),
        None => None,
    }
}

/// The value that the last line starting with `key` gives (`None` when no
/// line does, or when that line's value is not a number).
pub open spec fn last_kv(ls: Seq<Seq<char>>, key: Seq<char>) -> Option<i32>
    decreases ls.len(),
{
    if ls.len() == 0 {
        None
    } else if starts_with(ls.last(), key) {
        kv_number(ls.last(), key)
    } else {
        last_kv(ls.drop_last(), key)
    }
}

/// Whether `line` starts with `key`, and its value if so.
fn kv_line(line: &[char], key: &[char]) -> (r: (bool, Option<i32>))
    ensures
        r.0 == starts_with(line@, key@),
        r.0 ==> r.1 == kv_number(line@, key@),
{
    if starts_with_exec(line, key) {
        let rest = copy_range(line, key.len(), line.len());
        (true, parse_i32(rest.as_slice()))
    } else {
        (false, None)
    }
}

/// The values of the keys `keys` in `text`: for each key the value of the
/// last line that starts with it.
fn scan_kv(text: &str, keys: &Vec<Vec<char>>) -> (r: Vec<Option<i32>>)
    ensures
        r@.len() == keys@.len(),
        forall|k: int| 0 <= k < keys@.len() ==> (#[trigger] r@[k]) == last_kv(lines(text@), keys@[k]@),
{
    let chars = chars_of(text);
    let ls = lines_of(chars.as_slice());
    let mut vals: Vec<Option<i32>> = Vec::new();
    let mut k: usize = 0;
    while k < keys.len()
        invariant
            k <= keys@.len(),
            views(ls@) == lines(text@),
            vals@.len() == k,
            forall|j: int| 0 <= j < k ==> (#[trigger] vals@[j]) == last_kv(lines(text@), keys@[j]@),
        decreases keys@.len() - k,
    {
        let mut v: Option<i32> = None;
        let mut i: usize = 0;
        while i < ls.len()
            invariant
                i <= ls@.len(),
                k < keys@.len(),
                views(ls@) == lines(text@),
                v == last_kv(views(ls@).take(i as int), keys@[k as int]@),
            decreases ls@.len() - i,
        {
            let ghost t = views(ls@).take(i + 1);
            assert(t.drop_last() =~= views(ls@).take(i as int));
            assert(t.last() == ls@[i as int]@);
            let (hit, val) = kv_line(ls[i].as_slice(), keys[k].as_slice());
            if hit {
                v = val;
            }
            i = i + 1;
        }
        assert(views(ls@).take(i as int) =~= views(ls@));
        vals.push(v);
        k = k + 1;
    }
    vals
}

/// Cursor position from `xdotool getmouselocation --shell`: the last `X=`
/// and `Y=` lines, both required.
pub fn parse_xy_kv(text: &str) -> (r: Option<(i32, i32)>)
    ensures
        r == match (last_kv(lines(text@), "X="@), last_kv(lines(text@), "Y="@)) {
            (Some(x), Some(y)) => Some((x, y)),
            _ => None::<(i32, i32)>,
        },
{
    let mut keys: Vec<Vec<char>> = Vec::new();
    keys.push(chars_of("X="));
    keys.push(chars_of("Y="));
    proof {
        reveal_strlit("X=");
        reveal_strlit("Y=");
    }
    let vals = scan_kv(text, &keys);
    match (vals[0], vals[1]) {
        (Some(x), Some(y)) => Some((x, y)),
        _ => None,
    }
}

/// Window geometry from `xdotool getwindowgeometry --shell`: the last
/// `X=`, `Y=`, `WIDTH=` and `HEIGHT=` lines, all required.
pub fn parse_geometry_from_xdotool_output(text: &str) -> (r: Option<Geometry>)
    ensures
        r == match (
            last_kv(lines(text@), "X="@),
            last_kv(lines(text@), "Y="@),
            last_kv(lines(text@), "WIDTH="@),
            last_kv(lines(text@), "HEIGHT="@),
        ) {
            (Some(x), Some(y), Some(width), Some(height)) => Some(
                Geometry { x, y, width, height },
            ),
            _ => None::<Geometry>,
        },
{
    let mut keys: Vec<Vec<char>> = Vec::new();
    keys.push(chars_of("X="));
    keys.push(chars_of("Y="));
    keys.push(chars_of("WIDTH="));
    keys.push(chars_of("HEIGHT="));
    proof {
        reveal_strlit("X=");
        reveal_strlit("Y=");
        reveal_strlit("WIDTH=");
        reveal_strlit("HEIGHT=");
    }
    let vals = scan_kv(text, &keys);
    match (vals[0], vals[1], vals[2], vals[3]) {
        (Some(x), Some(y), Some(width), Some(height)) => Some(Geometry { x, y, width, height }),
        _ => None,
    }
}

/// The non-empty pieces at odd positions: the texts inside double quotes.
pub open spec fn quoted_parts(ps: Seq<Seq<char>>) -> Seq<Seq<char>>
    decreases ps.len(),
{
    if ps.len() == 0 {
        seq![]
    } else {
        let rest = quoted_parts(ps.drop_last());
        if (ps.len() - 1) % 2 == 1 && ps.last().len() > 0 {
            rest.push(ps.last())
        } else {
            rest
        }
    }
}

/// The `WM_CLASS` of a window from `xprop`'s line
/// `WM_CLASS(STRING) = "instance", "class"`: the quoted names after the
/// first `=`, joined by a space.
pub open spec fn wm_class_spec(line: Seq<char>) -> Option<Seq<char>> {
    let pieces = split(line, '=');
    if pieces.len() < 2 {
        None
    } else {
        let q = quoted_parts(split(pieces[1], '"'));
        if q.len() == 0 {
            None
        } else {
            Some(join(q, " "@))
        }
    }
}

/// The `WM_CLASS` named in `xprop`'s output.
pub fn parse_wm_class(xprop_line: &str) -> (r: Option<String>)
    ensures
        match wm_class_spec(xprop_line@) {
            Some(c) => r matches Some(s) && s@ == c,
            None => r is None,
        },
{
    let chars = chars_of(xprop_line);
    let pieces = split_chars(chars.as_slice(), '=');
    if pieces.len() < 2 {
        return None;
    }
    assert(views(pieces@)[1] == pieces@[1]@);
    let inner = split_chars(pieces[1].as_slice(), '"');
    let mut quoted: Vec<Vec<char>> = Vec::new();
    let mut i: usize = 0;
    while i < inner.len()
        invariant
            i <= inner@.len(),
            views(quoted@) == quoted_parts(views(inner@).take(i as int)),
        decreases inner@.len() - i,
    {
        let ghost t = views(inner@).take(i + 1);
        assert(t.drop_last() =~= views(inner@).take(i as int));
        assert(t.last() == inner@[i as int]@);
        if i % 2 == 1 && inner[i].len() > 0 {
            let ghost before = quoted@;
            quoted.push(inner[i].clone());
            assert(views(quoted@) =~= views(before).push(inner@[i as int]@));
        }
        i = i + 1;
    }
    assert(views(inner@).take(i as int) =~= views(inner@));
    if quoted.len() == 0 {
        None
    } else {
        let sep = chars_of(" ");
        Some(string_from(join_exec(quoted.as_slice(), sep.as_slice()).as_slice()))
    }
}

/// The window width to centre: the current one if it is known (over 10
/// pixels), else the default size, else 600.
pub fn best_available_width(current: i32, default: i32) -> (w: i32)
    ensures
        w == (if current > 10 {
            current
        } else if default > 0 {
            default
        } else {
            600
        }),
{
    if current > 10 {
        current
    } else if default > 0 {
        default
    } else {
        600
    }
}

/// The window height to centre, as [`best_available_width`] with 400.
pub fn best_available_height(current: i32, default: i32) -> (h: i32)
    ensures
        h == (if current > 10 {
            current
        } else if default > 0 {
            default
        } else {
            400
        }),
{
    if current > 10 {
        current
    } else if default > 0 {
        default
    } else {
        400
    }
}

/// Integer division by two rounding toward zero, as Rust's `/` does.
pub open spec fn half(a: int) -> int {
    if a >= 0 {
        a / 2
    } else {
        -((-a) / 2)
    }
}

/// The top-left corner that centres `window` on `monitor`, never left of
/// or above the monitor's own corner.
pub open spec fn centered_spec(window: Geometry, monitor: Geometry) -> Geometry {
    let x = monitor.x + half(monitor.width - window.width);
    let y = monitor.y + half(monitor.height - window.height);
    Geometry {
        x: (if x > monitor.x { x } else { monitor.x as int }) as i32,
        y: (if y > monitor.y { y } else { monitor.y as int }) as i32,
        width: window.width,
        height: window.height,
    }
}

/// `window` moved to the centre of `monitor`.
pub fn center_rect_on_monitor(window: &Geometry, monitor: &Geometry) -> (g: Geometry)
    requires
        i32::MIN <= monitor.width - window.width <= i32::MAX,
        i32::MIN <= monitor.height - window.height <= i32::MAX,
        i32::MIN <= monitor.x + half(monitor.width - window.width) <= i32::MAX,
        i32::MIN <= monitor.y + half(monitor.height - window.height) <= i32::MAX,
    ensures
        g == centered_spec(*window, *monitor),
{
    let dw = monitor.width - window.width;
    let dh = monitor.height - window.height;
    let x = monitor.x + dw / 2;
    let y = monitor.y + dh / 2;
    let x = if x > monitor.x { x } else { monitor.x };
    let y = if y > monitor.y { y } else { monitor.y };
    Geometry { x, y, width: window.width, height: window.height }
}

/// Whether the point lies inside the rectangle (right and bottom edges
/// excluded).
pub fn point_is_inside_rect(x: i32, y: i32, rect: &Geometry) -> (r: bool)
    requires
        rect.x + rect.width <= i32::MAX,
        rect.y + rect.height <= i32::MAX,
        rect.x + rect.width >= i32::MIN,
        rect.y + rect.height >= i32::MIN,
    ensures
        r == (rect.x <= x < rect.x + rect.width && rect.y <= y < rect.y + rect.height),
{
    x >= rect.x && x < rect.x + rect.width && y >= rect.y && y < rect.y + rect.height
}

/// A rectangle in logical pixels scaled to physical ones; a scale factor
/// below 1 counts as 1.
pub fn scale_geometry(logical: &Geometry, scale_factor: i32) -> (g: Geometry)
    requires
        ({
            let s = if scale_factor > 1 { scale_factor as int } else { 1 };
            &&& i32::MIN <= logical.x * s <= i32::MAX
            &&& i32::MIN <= logical.y * s <= i32::MAX
            &&& i32::MIN <= logical.width * s <= i32::MAX
            &&& i32::MIN <= logical.height * s <= i32::MAX
        }),
    ensures
        ({
            let s = if scale_factor > 1 { scale_factor as int } else { 1 };
            g == Geometry {
                x: (logical.x * s) as i32,
                y: (logical.y * s) as i32,
                width: (logical.width * s) as i32,
                height: (logical.height * s) as i32,
            }
        }),
{
    let scale = if scale_factor > 1 {
        scale_factor
    } else {
        1
    };
    Geometry {
        x: logical.x * scale,
        y: logical.y * scale,
        width: logical.width * scale,
        height: logical.height * scale,
    }
}

/// The index of the first rectangle that contains the point, if any.
pub fn monitor_index_containing(monitors: &[Geometry], x: i32, y: i32) -> (r: Option<usize>)
    requires
        forall|i: int| 0 <= i < monitors@.len() ==> fits(#[trigger] monitors@[i]),
    ensures
        match r {
            Some(i) => i < monitors@.len() && inside(x as int, y as int, monitors@[i as int]) && forall|j: int|
                0 <= j < i ==> !inside(x as int, y as int, #[trigger] monitors@[j]),
            None => forall|j: int| 0 <= j < monitors@.len() ==> !inside(x as int, y as int, #[trigger] monitors@[j]),
        },
{
    let mut i: usize = 0;
    while i < monitors.len()
        invariant
            i <= monitors@.len(),
            forall|k: int| 0 <= k < monitors@.len() ==> fits(#[trigger] monitors@[k]),
            forall|j: int| 0 <= j < i ==> !inside(x as int, y as int, #[trigger] monitors@[j]),
        decreases monitors@.len() - i,
    {
        assert(fits(monitors@[i as int]));
        if point_is_inside_rect(x, y, &monitors[i]) {
            return Some(i);
        }
        i = i + 1;
    }
    None
}

/// The right and bottom edges of the rectangle are representable.
pub open spec fn fits(r: Geometry) -> bool {
    &&& i32::MIN <= r.x + r.width <= i32::MAX
    &&& i32::MIN <= r.y + r.height <= i32::MAX
}

/// The point lies inside the rectangle (right and bottom edges excluded).
pub open spec fn inside(x: int, y: int, r: Geometry) -> bool {
    r.x <= x < r.x + r.width && r.y <= y < r.y + r.height
}

/// The centre of a window, as integer division gives it.
pub fn window_center(g: &Geometry) -> (c: (i32, i32))
    requires
        i32::MIN <= g.x + half(g.width as int) <= i32::MAX,
        i32::MIN <= g.y + half(g.height as int) <= i32::MAX,
    ensures
        c.0 == g.x + half(g.width as int),
        c.1 == g.y + half(g.height as int),
{
    (g.x + g.width / 2, g.y + g.height / 2)
}

/// Where a window of `width` × `height` physical pixels goes next to the
/// cursor at (`cx`, `cy`) on `monitor`: 16 logical pixels right of the
/// cursor when it fits, else left of it but not left of the monitor;
/// vertically centred on the cursor, kept on the monitor.
pub open spec fn beside_cursor_spec(cx: int, cy: int, monitor: Geometry, width: int, height: int, scale: int) -> (int, int) {
    let margin = 16 * scale;
    let right_x = cx + margin;
    let x = if right_x + width <= monitor.x + monitor.width {
        right_x
    } else {
        let left_x = cx - margin - width;
        if left_x > monitor.x { left_x } else { monitor.x as int }
    };
    let top = cy - half(height);
    let top = if top > monitor.y { top } else { monitor.y as int };
    let bottom_limit = monitor.y + monitor.height - height;
    let y = if top < bottom_limit { top } else { bottom_limit };
    (x, y)
}

/// The arithmetic of [`beside_cursor_spec`] stays within `i32`.
pub open spec fn beside_cursor_fits(cx: int, cy: int, monitor: Geometry, width: int, height: int, scale: int) -> bool {
    let margin = 16 * scale;
    &&& i32::MIN <= margin <= i32::MAX
    &&& i32::MIN <= cx + margin <= i32::MAX
    &&& i32::MIN <= cx + margin + width <= i32::MAX
    &&& i32::MIN <= monitor.x + monitor.width <= i32::MAX
    &&& i32::MIN <= cx - margin <= i32::MAX
    &&& i32::MIN <= cx - margin - width <= i32::MAX
    &&& i32::MIN <= cy - half(height) <= i32::MAX
    &&& i32::MIN <= monitor.y + monitor.height <= i32::MAX
    &&& i32::MIN <= monitor.y + monitor.height - height <= i32::MAX
}

/// The position of the dictation panel next to the cursor.
pub fn position_beside_cursor(cx: i32, cy: i32, monitor: &Geometry, width: i32, height: i32, scale: i32) -> (p: (i32, i32))
    requires
        beside_cursor_fits(cx as int, cy as int, *monitor, width as int, height as int, scale as int),
    ensures
        (p.0 as int, p.1 as int) == beside_cursor_spec(cx as int, cy as int, *monitor, width as int, height as int, scale as int),
{
    let margin = 16 * scale;
    let right_x = cx + margin;
    let x = if right_x + width <= monitor.x + monitor.width {
        right_x
    } else {
        let left_x = cx - margin - width;
        if left_x > monitor.x { left_x } else { monitor.x }
    };
    let top = cy - height / 2;
    let top = if top > monitor.y { top } else { monitor.y };
    let bottom_limit = monitor.y + monitor.height - height;
    let y = if top < bottom_limit { top } else { bottom_limit };
    (x, y)
}

/// The window id `xdotool getactivewindow` printed: its output, trimmed,
/// unless that is empty.
pub fn window_id_from_output(stdout: &[u8]) -> (r: Option<String>)
    ensures
        match r {
            Some(s) => s@ == trim(utf8_lossy(stdout@)) && s@.len() > 0,
            None => trim(utf8_lossy(stdout@)).len() == 0,
        },
{
    let t = trim_chars(lossy_chars(stdout).as_slice());
    if t.len() == 0 {
        None
    } else {
        Some(string_from(t.as_slice()))
    }
}

/// Law: a window no larger than the monitor is centred on it: it lies
/// wholly on the monitor, keeps its size, and the free space left of it is
/// the space right of it or one pixel less (likewise above and below).  A
/// window wider or taller than the monitor starts at the monitor's left or
/// top edge.
pub proof fn lemma_centered_on_monitor(window: Geometry, monitor: Geometry)
    requires
        fits(monitor),
        window.width >= 0,
        window.height >= 0,
    ensures
        ({
            let g = centered_spec(window, monitor);
            &&& g.width == window.width && g.height == window.height
            &&& g.x >= monitor.x && g.y >= monitor.y
            &&& window.width <= monitor.width ==> {
                &&& g.x + g.width <= monitor.x + monitor.width
                &&& g.x - monitor.x <= monitor.x + monitor.width - (g.x + g.width) <= g.x - monitor.x + 1
            }
            &&& window.height <= monitor.height ==> {
                &&& g.y + g.height <= monitor.y + monitor.height
                &&& g.y - monitor.y <= monitor.y + monitor.height - (g.y + g.height) <= g.y - monitor.y + 1
            }
            &&& window.width > monitor.width ==> g.x == monitor.x
            &&& window.height > monitor.height ==> g.y == monitor.y
        }),
{
    let x = monitor.x + half(monitor.width - window.width);
    let y = monitor.y + half(monitor.height - window.height);
    if window.width <= monitor.width {
        assert(monitor.x <= x <= monitor.x + monitor.width);
    } else {
        assert(x <= monitor.x);
    }
    if window.height <= monitor.height {
        assert(monitor.y <= y <= monitor.y + monitor.height);
    } else {
        assert(y <= monitor.y);
    }
}

/// Law: the panel next to the cursor never reaches below the monitor, and
/// when it is no taller than the monitor it does not reach above it either.
/// Horizontally it sits 16 logical pixels right of the cursor when it fits
/// there, else left of the cursor with the same gap, pushed right onto the
/// monitor when that would leave it.
pub proof fn lemma_beside_cursor(cx: int, cy: int, monitor: Geometry, width: int, height: int, scale: int)
    ensures
        ({
            let (x, y) = beside_cursor_spec(cx, cy, monitor, width, height, scale);
            &&& y + height <= monitor.y + monitor.height
            &&& height <= monitor.height ==> y >= monitor.y
            &&& cx + 16 * scale + width <= monitor.x + monitor.width ==> x == cx + 16 * scale
            &&& cx + 16 * scale + width > monitor.x + monitor.width ==> {
                &&& x >= monitor.x
                &&& x == cx - 16 * scale - width || x == monitor.x
                &&& x == monitor.x ==> cx - 16 * scale - width <= monitor.x
            }
        }),
{
}

} // verus!

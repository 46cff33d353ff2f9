use vstd::prelude::*;
use vstd::arithmetic::div_mod::{
    lemma_fundamental_div_mod, lemma_fundamental_div_mod_converse, lemma_mod_bound,
};

verus! {

/// Edge length of one tile, in milli-units (ten world units).
///
/// World coordinates are held as integers in thousandths of a world unit.
pub const TILE_SIZE: i64 = 10_000;

/// Pan speed in world units per second at zoom 1.
pub const CAMERA_SPEED: u64 = 500;

/// Zoom is a magnification held in thousandths: at 1000 one world unit
/// covers one pixel, and at zoom `z` it covers `z / 1000` pixels, so a lower
/// zoom shows more of the world.
pub const MIN_ZOOM: u64 = 100;

pub const MAX_ZOOM: u64 = 5000;

pub const DEFAULT_ZOOM: u64 = 2000;

/// One scroll step multiplies the zoom by `ZOOM_STEP_NUM / ZOOM_STEP_DEN`
/// (zooming in) or by its inverse (zooming out).
pub const ZOOM_STEP_NUM: u64 = 3;

pub const ZOOM_STEP_DEN: u64 = 2;

/// A line of scrolling counts as this many pixels.
pub const PIXELS_PER_LINE: i128 = 100;

/// A diagonal pan moves each axis by the step times
/// `DIAGONAL_NUM / DIAGONAL_DEN`, about one over the square root of two.
pub const DIAGONAL_NUM: i64 = 70_711;

pub const DIAGONAL_DEN: i64 = 100_000;

/// Largest magnitude of a camera or world coordinate, in milli-units.
pub const POSITION_LIMIT: i64 = 1_000_000_000_000_000;

/// Largest magnitude of a screen coordinate, in thousandths of a pixel.
pub const SCREEN_LIMIT: i64 = 100_000_000_000_000_000;

/// Screen coordinates are held in thousandths of a pixel.
pub const SUBPIXELS: i64 = 1000;

/// A point in world space, in milli-units.
#[derive(Debug, Clone, Copy, PartialEq, Eq, Structural)]
pub struct WorldPoint {
    pub x: i64,
    pub y: i64,
}

/// A point in screen space, in thousandths of a pixel from the centre of the
/// view, y upwards.
#[derive(Debug, Clone, Copy, PartialEq, Eq, Structural)]
pub struct ScreenPoint {
    pub x: i64,
    pub y: i64,
}

/// A grid coordinate; it may lie outside the map.
#[derive(Debug, Clone, Copy, PartialEq, Eq, Structural)]
pub struct GridCoord {
    pub x: i64,
    pub y: i64,
}

/// The directional flags held during one tick.
#[derive(Debug, Clone, Copy, PartialEq, Eq, Structural)]
pub struct MoveInput {
    pub left: bool,
    pub right: bool,
    pub up: bool,
    pub down: bool,
}

#[derive(Debug, Clone, Copy, PartialEq, Eq, Structural)]
pub enum ScrollUnit {
    Line,
    Pixel,
}

/// One scroll event: a signed vertical amount, in hundredths of a line or
/// of a pixel. A positive amount zooms out.
#[derive(Debug, Clone, Copy, PartialEq, Eq, Structural)]
pub struct ScrollEvent {
    pub unit: ScrollUnit,
    pub hundredths: i32,
}

/// The viewport: where it looks and how far it is zoomed.
#[derive(Debug, Clone, Copy, PartialEq, Eq, Structural)]
pub struct CameraView {
    pub position: WorldPoint,
    pub zoom: u64,
}

pub open spec fn within(v: int, limit: int) -> bool {
    -limit <= v <= limit
}

pub open spec fn clamp(v: int, lo: int, hi: int) -> int {
    if v < lo {
        lo
    } else if v > hi {
        hi
    } else {
        v
    }
}

/// The net direction on one axis: +1, -1, or 0 when both or neither are held.
pub open spec fn axis_dir(neg: bool, pos: bool) -> int {
    (if pos { 1int } else { 0int }) - (if neg { 1int } else { 0int })
}

/// Distance panned along a single axis in one tick, in milli-units:
/// `CAMERA_SPEED` units per second for `dt` microseconds, divided by the
/// magnification so that the speed on screen does not depend on it. A tick
/// of any length moves at least one milli-unit.
pub open spec fn step_length(zoom: int, dt: int) -> int {
    let s = CAMERA_SPEED as int * dt / zoom;
    if s > POSITION_LIMIT {
        POSITION_LIMIT as int
    } else if s == 0 && dt > 0 {
        1
    } else {
        s
    }
}

/// The length of the pan on each moving axis: the step itself, or its share
/// of the unit diagonal when both axes move, but never less than one
/// milli-unit when the step is not zero.
pub open spec fn axis_step(input: MoveInput, zoom: int, dt: int) -> int {
    let s = step_length(zoom, dt);
    if axis_dir(input.left, input.right) != 0 && axis_dir(input.down, input.up) != 0 {
        let d = s * (DIAGONAL_NUM as int) / (DIAGONAL_DEN as int);
        if d == 0 && s > 0 {
            1
        } else {
            d
        }
    } else {
        s
    }
}

pub open spec fn panned_x(c: CameraView, input: MoveInput, dt: int) -> int {
    clamp(
        c.position.x + axis_dir(input.left, input.right) * axis_step(input, c.zoom as int, dt),
        -POSITION_LIMIT,
        POSITION_LIMIT as int,
    )
}

pub open spec fn panned_y(c: CameraView, input: MoveInput, dt: int) -> int {
    clamp(
        c.position.y + axis_dir(input.down, input.up) * axis_step(input, c.zoom as int, dt),
        -POSITION_LIMIT,
        POSITION_LIMIT as int,
    )
}

/// The view after one tick of panning with `input` held for `dt` microseconds.
pub open spec fn panned(c: CameraView, input: MoveInput, dt: int) -> CameraView {
    if axis_dir(input.left, input.right) == 0 && axis_dir(input.down, input.up) == 0 {
        c
    } else {
        CameraView {
            position: WorldPoint {
                x: panned_x(c, input, dt) as i64,
                y: panned_y(c, input, dt) as i64,
            },
            zoom: c.zoom,
        }
    }
}

/// The view after `n` ticks of panning with the same input.
pub open spec fn panned_ticks(c: CameraView, input: MoveInput, dt: int, n: nat) -> CameraView
    decreases n,
{
    if n == 0 {
        c
    } else {
        panned(panned_ticks(c, input, dt, (n - 1) as nat), input, dt)
    }
}

/// The scroll amount of one event, in hundredths of a pixel.
pub open spec fn scroll_amount(e: ScrollEvent) -> int {
    match e.unit {
        ScrollUnit::Line => e.hundredths * (PIXELS_PER_LINE as int),
        ScrollUnit::Pixel => e.hundredths as int,
    }
}

/// The net scroll of a batch of events, in hundredths of a pixel.
pub open spec fn net_scroll(events: Seq<ScrollEvent>) -> int
    decreases events.len(),
{
    if events.len() == 0 {
        0
    } else {
        net_scroll(events.drop_last()) + scroll_amount(events.last())
    }
}

/// The zoom after a tick whose scroll input added up to `net`: one step out
/// (a lower magnification) for a positive total, one step in for a negative
/// one, clamped to the bounds.
pub open spec fn zoom_after(zoom: int, net: int) -> int {
    if net > 0 {
        clamp(zoom * (ZOOM_STEP_DEN as int) / (ZOOM_STEP_NUM as int), MIN_ZOOM as int, MAX_ZOOM as int)
    } else if net < 0 {
        clamp(zoom * (ZOOM_STEP_NUM as int) / (ZOOM_STEP_DEN as int), MIN_ZOOM as int, MAX_ZOOM as int)
    } else {
        zoom
    }
}

/// The zoom after a run of ticks with net scroll `nets`, in order.
pub open spec fn zoom_after_all(zoom: int, nets: Seq<int>) -> int
    decreases nets.len(),
{
    if nets.len() == 0 {
        zoom
    } else {
        zoom_after(zoom_after_all(zoom, nets.drop_last()), nets.last())
    }
}

/// Screen to world on one axis: translate by the camera position and scale
/// by one over the magnification; rounded down. A thousandth of a pixel
/// covers `1000 / zoom` milli-units.
pub open spec fn to_world(cam: int, zoom: int, s: int) -> int {
    cam + (s * (SUBPIXELS as int)) / zoom
}

/// World to screen on one axis, in thousandths of a pixel: the offset from
/// the camera scaled by the magnification; rounded down.
pub open spec fn to_screen(cam: int, zoom: int, w: int) -> int {
    ((w - cam) * zoom) / (SUBPIXELS as int)
}

/// The tile index on one axis that holds the world coordinate `w`.
pub open spec fn to_grid(w: int) -> int {
    w / (TILE_SIZE as int)
}

impl CameraView {
    pub open spec fn wf(&self) -> bool {
        &&& MIN_ZOOM <= self.zoom <= MAX_ZOOM
        &&& within(self.position.x as int, POSITION_LIMIT as int)
        &&& within(self.position.y as int, POSITION_LIMIT as int)
    }

    /// The view of the centre of a map of `width` by `height` tiles at the
    /// default zoom.
    pub open spec fn centered_spec(width: int, height: int) -> CameraView {
        CameraView {
            position: WorldPoint {
                x: (width * TILE_SIZE / 2) as i64,
                y: (height * TILE_SIZE / 2) as i64,
            },
            zoom: DEFAULT_ZOOM,
        }
    }

    /// A view of the centre of a map of `width` by `height` tiles at the
    /// default zoom.
    pub fn centered_on(width: u32, height: u32) -> (r: CameraView)
        ensures
            r.wf(),
            r.position.x == width as int * TILE_SIZE / 2,
            r.position.y == height as int * TILE_SIZE / 2,
            r.zoom == DEFAULT_ZOOM,
            r == CameraView::centered_spec(width as int, height as int),
    {
        CameraView {
            position: WorldPoint {
                x: width as i64 * TILE_SIZE / 2,
                y: height as i64 * TILE_SIZE / 2,
            },
            zoom: DEFAULT_ZOOM,
        }
    }

    /// Pans for one tick of `dt` microseconds with the flags in `input`.
    /// Opposite flags cancel; with no net direction nothing changes. The
    /// step is divided by the magnification, so the speed on screen does not
    /// depend on the zoom, and a held direction always moves the view.
    pub fn pan(&mut self, input: MoveInput, dt: u64)
        requires
            old(self).wf(),
        ensures
            final(self).wf(),
            *final(self) == panned(*old(self), input, dt as int),
    {
        let dx: i64 = direction(input.left, input.right);
        let dy: i64 = direction(input.down, input.up);
        if dx == 0 && dy == 0 {
            return;
        }
        let step = step_of(self.zoom, dt);
        let along: i64 = if dx != 0 && dy != 0 {
            let scaled = (step as i128) * (DIAGONAL_NUM as i128);
            proof {
                assert(0 <= scaled / 100_000 <= step) by (nonlinear_arith)
                    requires scaled == step * 70_711, 0 <= step <= POSITION_LIMIT;
            }
            let d = (scaled / (DIAGONAL_DEN as i128)) as i64;
            if d == 0 && step > 0 {
                1
            } else {
                d
            }
        } else {
            step
        };
        assert(along == axis_step(input, self.zoom as int, dt as int));
        self.position.x = clamp_position(self.position.x + signed(dx, along));
        self.position.y = clamp_position(self.position.y + signed(dy, along));
    }

    /// Applies the whole batch of scroll events of one tick as a single
    /// zoom step, in the direction of their net amount.
    pub fn zoom_by(&mut self, events: &Vec<ScrollEvent>)
        requires
            old(self).wf(),
        ensures
            final(self).wf(),
            final(self).position == old(self).position,
            final(self).zoom == zoom_after(old(self).zoom as int, net_scroll(events@)),
    {
        let net = net_scroll_of(events);
        if net > 0 {
            self.zoom = clamp_zoom(self.zoom * ZOOM_STEP_DEN / ZOOM_STEP_NUM);
        } else if net < 0 {
            self.zoom = clamp_zoom(self.zoom * ZOOM_STEP_NUM / ZOOM_STEP_DEN);
        }
    }

    /// The world point under the screen point `s`.
    pub fn screen_to_world(&self, s: ScreenPoint) -> (r: WorldPoint)
        requires
            self.wf(),
            within(s.x as int, SCREEN_LIMIT as int),
            within(s.y as int, SCREEN_LIMIT as int),
        ensures
            r.x == to_world(self.position.x as int, self.zoom as int, s.x as int),
            r.y == to_world(self.position.y as int, self.zoom as int, s.y as int),
    {
        proof {
            lemma_scaled_screen_fits(s.x as int, self.zoom as int);
            lemma_scaled_screen_fits(s.y as int, self.zoom as int);
        }
        let z = self.zoom as i128;
        let sub = SUBPIXELS as i128;
        let dx = floor_div(s.x as i128 * sub, z);
        let dy = floor_div(s.y as i128 * sub, z);
        WorldPoint { x: self.position.x + dx as i64, y: self.position.y + dy as i64 }
    }

    /// The screen point whose pixel covers the world point `w`.
    pub fn world_to_screen(&self, w: WorldPoint) -> (r: ScreenPoint)
        requires
            self.wf(),
            within(w.x as int, POSITION_LIMIT as int),
            within(w.y as int, POSITION_LIMIT as int),
        ensures
            r.x == to_screen(self.position.x as int, self.zoom as int, w.x as int),
            r.y == to_screen(self.position.y as int, self.zoom as int, w.y as int),
            within(r.x as int, SCREEN_LIMIT as int),
            within(r.y as int, SCREEN_LIMIT as int),
    {
        let z = self.zoom as i128;
        let sub = SUBPIXELS as i128;
        proof {
            lemma_screen_fits(w.x - self.position.x, z as int);
            lemma_screen_fits(w.y - self.position.y, z as int);
        }
        let x = floor_div((w.x - self.position.x) as i128 * z, sub);
        let y = floor_div((w.y - self.position.y) as i128 * z, sub);
        ScreenPoint { x: x as i64, y: y as i64 }
    }
}

/// One tick of panning keeps the view well formed.
pub proof fn panning_keeps_view_valid(c: CameraView, input: MoveInput, dt: int)
    requires
        c.wf(),
    ensures
        panned(c, input, dt).wf(),
        panned(c, input, dt).zoom == c.zoom,
{
}

/// On an axis whose two flags are both held or both released the position
/// does not change, for any number of ticks; in particular holding left and
/// right together, and up and down together, leaves the view where it was.
pub proof fn cancelled_axis_stays(c: CameraView, input: MoveInput, dt: int, n: nat)
    requires
        c.wf(),
    ensures
        panned_ticks(c, input, dt, n).wf(),
        axis_dir(input.left, input.right) == 0 ==> panned_ticks(c, input, dt, n).position.x
            == c.position.x,
        axis_dir(input.down, input.up) == 0 ==> panned_ticks(c, input, dt, n).position.y
            == c.position.y,
    decreases n,
{
    if n > 0 {
        cancelled_axis_stays(c, input, dt, (n - 1) as nat);
        panning_keeps_view_valid(panned_ticks(c, input, dt, (n - 1) as nat), input, dt);
    }
}

/// Holding a single direction for `n` ticks moves the view exactly `n` steps
/// that way and not at all along the other axis, so the displacement has
/// that direction's sign on both axes. This holds for ticks of any positive
/// length while the path stays within the coordinate limits.
pub proof fn held_direction_moves_that_way(c: CameraView, input: MoveInput, dt: int, n: nat)
    requires
        c.wf(),
        dt > 0,
        axis_dir(input.left, input.right) == 0 || axis_dir(input.down, input.up) == 0,
        within(
            c.position.x + n * axis_dir(input.left, input.right) * step_length(c.zoom as int, dt),
            POSITION_LIMIT as int,
        ),
        within(
            c.position.y + n * axis_dir(input.down, input.up) * step_length(c.zoom as int, dt),
            POSITION_LIMIT as int,
        ),
    ensures
        panned_ticks(c, input, dt, n).position.x == c.position.x + n * axis_dir(
            input.left,
            input.right,
        ) * step_length(c.zoom as int, dt),
        panned_ticks(c, input, dt, n).position.y == c.position.y + n * axis_dir(
            input.down,
            input.up,
        ) * step_length(c.zoom as int, dt),
        n > 0 ==> axis_dir(input.left, input.right) * (panned_ticks(c, input, dt, n).position.x
            - c.position.x) > 0 || axis_dir(input.left, input.right) == 0,
        n > 0 ==> axis_dir(input.down, input.up) * (panned_ticks(c, input, dt, n).position.y
            - c.position.y) > 0 || axis_dir(input.down, input.up) == 0,
    decreases n,
{
    let s = step_length(c.zoom as int, dt);
    let dx = axis_dir(input.left, input.right);
    let dy = axis_dir(input.down, input.up);
    lemma_nonneg_div(CAMERA_SPEED * dt, c.zoom as int);
    assert(s > 0);
    if n > 0 {
        let m = (n - 1) as nat;
        assert(within(c.position.x + m * dx * s, POSITION_LIMIT as int)) by (nonlinear_arith)
            requires
                within(c.position.x as int, POSITION_LIMIT as int),
                within(c.position.x + n * dx * s, POSITION_LIMIT as int),
                m == n - 1,
                n > 0,
                s > 0,
                -1 <= dx <= 1;
        assert(within(c.position.y + m * dy * s, POSITION_LIMIT as int)) by (nonlinear_arith)
            requires
                within(c.position.y as int, POSITION_LIMIT as int),
                within(c.position.y + n * dy * s, POSITION_LIMIT as int),
                m == n - 1,
                n > 0,
                s > 0,
                -1 <= dy <= 1;
        held_direction_moves_that_way(c, input, dt, m);
        cancelled_axis_stays(c, input, dt, m);
        let p = panned_ticks(c, input, dt, m);
        assert(p.zoom == c.zoom) by {
            lemma_pan_keeps_zoom(c, input, dt, m);
        }
        assert(n * dx * s == m * dx * s + dx * s) by (nonlinear_arith)
            requires m == n - 1;
        assert(n * dy * s == m * dy * s + dy * s) by (nonlinear_arith)
            requires m == n - 1;
        assert(axis_step(input, p.zoom as int, dt) == s);
        if dx == 0 && dy == 0 {
            assert(dx * s == 0 && dy * s == 0);
        }
        assert(dx * (n * dx * s) > 0 || dx == 0) by (nonlinear_arith)
            requires n > 0, s > 0, -1 <= dx <= 1;
        assert(dy * (n * dy * s) > 0 || dy == 0) by (nonlinear_arith)
            requires n > 0, s > 0, -1 <= dy <= 1;
    } else {
        assert(n * dx * s == 0 && n * dy * s == 0) by (nonlinear_arith)
            requires n == 0;
    }
}

proof fn lemma_pan_keeps_zoom(c: CameraView, input: MoveInput, dt: int, n: nat)
    ensures
        panned_ticks(c, input, dt, n).zoom == c.zoom,
    decreases n,
{
    if n > 0 {
        lemma_pan_keeps_zoom(c, input, dt, (n - 1) as nat);
    }
}

/// Whatever the scroll input of each tick, the zoom stays within
/// `[MIN_ZOOM, MAX_ZOOM]`.
pub proof fn zoom_stays_in_bounds(zoom: int, nets: Seq<int>)
    requires
        MIN_ZOOM <= zoom <= MAX_ZOOM,
    ensures
        MIN_ZOOM <= zoom_after_all(zoom, nets) <= MAX_ZOOM,
    decreases nets.len(),
{
    if nets.len() > 0 {
        zoom_stays_in_bounds(zoom, nets.drop_last());
    }
}

/// Projecting a world point to the screen and back returns it up to the
/// rounding of the two steps: the result lies below the point by less than
/// `1 + 1000 / zoom` milli-units, at most 10 milli-units at any valid zoom,
/// while one pixel covers `1_000_000 / zoom` of them. Likewise a screen point
/// comes back from the world below itself by less than `1 + zoom / 1000`
/// thousandths of a pixel.
pub proof fn screen_world_round_trip(cam: int, zoom: int, p: int, s: int)
    requires
        zoom > 0,
    ensures
        0 <= p - to_world(cam, zoom, to_screen(cam, zoom, p)),
        zoom * (p - to_world(cam, zoom, to_screen(cam, zoom, p))) < zoom + 1000,
        zoom >= MIN_ZOOM ==> p - to_world(cam, zoom, to_screen(cam, zoom, p)) <= 10,
        0 <= s - to_screen(cam, zoom, to_world(cam, zoom, s)),
        1000 * (s - to_screen(cam, zoom, to_world(cam, zoom, s))) < zoom + 1000,
{
    let d = p - cam;
    let q = (d * zoom) / 1000;
    let f = (q * 1000) / zoom;
    lemma_fundamental_div_mod(d * zoom, 1000);
    lemma_mod_bound(d * zoom, 1000);
    lemma_fundamental_div_mod(q * 1000, zoom);
    lemma_mod_bound(q * 1000, zoom);
    assert(zoom * (d - f) == (d * zoom) % 1000 + (q * 1000) % zoom) by (nonlinear_arith)
        requires
            d * zoom == 1000 * q + (d * zoom) % 1000,
            q * 1000 == zoom * f + (q * 1000) % zoom;
    assert(to_world(cam, zoom, to_screen(cam, zoom, p)) == cam + f);
    assert(0 <= d - f) by (nonlinear_arith)
        requires zoom > 0, zoom * (d - f) >= 0;
    if zoom >= MIN_ZOOM {
        assert(d - f <= 10) by (nonlinear_arith)
            requires zoom >= 100, zoom * (d - f) < zoom + 1000;
    }

    let g = (s * 1000) / zoom;
    let t = (g * zoom) / 1000;
    lemma_fundamental_div_mod(s * 1000, zoom);
    lemma_mod_bound(s * 1000, zoom);
    lemma_fundamental_div_mod(g * zoom, 1000);
    lemma_mod_bound(g * zoom, 1000);
    assert(1000 * (s - t) == (s * 1000) % zoom + (g * zoom) % 1000) by (nonlinear_arith)
        requires
            s * 1000 == zoom * g + (s * 1000) % zoom,
            g * zoom == 1000 * t + (g * zoom) % 1000;
    assert(to_screen(cam, zoom, to_world(cam, zoom, s)) == t);
}

/// The screen point of a cursor at (`cursor_x`, `cursor_y`), in thousandths
/// of a pixel from the top left corner of a window of `width` by `height`
/// pixels, with y downwards.
pub fn viewport_to_screen(cursor_x: i64, cursor_y: i64, width: u32, height: u32) -> (r: ScreenPoint)
    requires
        within(cursor_x as int, POSITION_LIMIT as int),
        within(cursor_y as int, POSITION_LIMIT as int),
    ensures
        r.x == cursor_x - width * SUBPIXELS / 2,
        r.y == height * SUBPIXELS / 2 - cursor_y,
{
    ScreenPoint {
        x: cursor_x - width as i64 * (SUBPIXELS / 2),
        y: height as i64 * (SUBPIXELS / 2) - cursor_y,
    }
}

/// The grid coordinate of the tile that holds the world point `w`. It may
/// lie outside any map: callers check it against the grid.
pub fn world_to_grid(w: WorldPoint) -> (r: GridCoord)
    ensures
        r.x == to_grid(w.x as int),
        r.y == to_grid(w.y as int),
{
    let x = floor_div(w.x as i128, TILE_SIZE as i128);
    let y = floor_div(w.y as i128, TILE_SIZE as i128);
    GridCoord { x: x as i64, y: y as i64 }
}

fn direction(neg: bool, pos: bool) -> (r: i64)
    ensures
        r == axis_dir(neg, pos),
{
    let p: i64 = if pos { 1 } else { 0 };
    let n: i64 = if neg { 1 } else { 0 };
    p - n
}

/// `v` with the sign of the direction `d`, or zero for no direction.
fn signed(d: i64, v: i64) -> (r: i64)
    requires
        -1 <= d <= 1,
        0 <= v <= POSITION_LIMIT,
    ensures
        r == d * v,
        within(r as int, POSITION_LIMIT as int),
{
    proof {
        assert(d * v == if d > 0 { v as int } else if d < 0 { -v } else { 0 }) by (nonlinear_arith)
            requires -1 <= d <= 1;
    }
    if d > 0 {
        v
    } else if d < 0 {
        -v
    } else {
        0
    }
}

fn step_of(zoom: u64, dt: u64) -> (r: i64)
    requires
        MIN_ZOOM <= zoom <= MAX_ZOOM,
    ensures
        r == step_length(zoom as int, dt as int),
        0 <= r <= POSITION_LIMIT,
{
    proof {
        assert(CAMERA_SPEED * (dt as int) <= 500 * 0xffff_ffff_ffff_ffffint) by (nonlinear_arith)
            requires dt <= 0xffff_ffff_ffff_ffffint;
    }
    let scaled: u128 = (CAMERA_SPEED as u128) * (dt as u128);
    let s: u128 = scaled / (zoom as u128);
    if s > POSITION_LIMIT as u128 {
        POSITION_LIMIT
    } else if s == 0 && dt > 0 {
        1
    } else {
        s as i64
    }
}

fn clamp_position(v: i64) -> (r: i64)
    ensures
        r == clamp(v as int, -POSITION_LIMIT, POSITION_LIMIT as int),
{
    if v < -POSITION_LIMIT {
        -POSITION_LIMIT
    } else if v > POSITION_LIMIT {
        POSITION_LIMIT
    } else {
        v
    }
}

fn clamp_zoom(z: u64) -> (r: u64)
    ensures
        r == clamp(z as int, MIN_ZOOM as int, MAX_ZOOM as int),
{
    if z < MIN_ZOOM {
        MIN_ZOOM
    } else if z > MAX_ZOOM {
        MAX_ZOOM
    } else {
        z
    }
}

/// The net scroll of a batch, summed in full before any zoom is applied.
fn net_scroll_of(events: &Vec<ScrollEvent>) -> (r: i128)
    ensures
        r == net_scroll(events@),
{
    let mut acc: i128 = 0;
    let mut i: usize = 0;
    while i < events.len()
        invariant
            i <= events@.len(),
            acc == net_scroll(events@.take(i as int)),
            -(i as int) * 214_748_364_800 <= acc <= (i as int) * 214_748_364_800,
        decreases events@.len() - i,
    {
        let e = events[i];
        let amount: i128 = match e.unit {
            ScrollUnit::Line => e.hundredths as i128 * PIXELS_PER_LINE,
            ScrollUnit::Pixel => e.hundredths as i128,
        };
        proof {
            assert(events@.take(i as int + 1).drop_last() =~= events@.take(i as int));
        }
        acc = acc + amount;
        i = i + 1;
    }
    proof {
        assert(events@.take(i as int) =~= events@);
    }
    acc
}

/// Division rounding towards negative infinity, as `/` does on `int`.
fn floor_div(a: i128, b: i128) -> (r: i128)
    requires
        b > 0,
    ensures
        r == a as int / b as int,
        0 <= a ==> 0 <= r <= a,
        a < 0 ==> a <= r < 0,
{
    if a >= 0 {
        let q = (a as u128) / (b as u128);
        proof {
            lemma_fundamental_div_mod(a as int, b as int);
            lemma_nonneg_div(a as int, b as int);
        }
        q as i128
    } else {
        let m = (-(a + 1)) as u128;
        let q = m / (b as u128);
        proof {
            let rem = m as int % b as int;
            lemma_fundamental_div_mod(m as int, b as int);
            lemma_nonneg_div(m as int, b as int);
            assert(0 <= rem < b) by (nonlinear_arith)
                requires rem == m as int % b as int, b > 0, m >= 0;
            assert(a == (-(q as int) - 1) * b + (b - 1 - rem)) by (nonlinear_arith)
                requires
                    m == b * (q as int) + rem,
                    m == -(a + 1);
            lemma_fundamental_div_mod_converse(a as int, b as int, -(q as int) - 1, b - 1 - rem);
        }
        -(q as i128) - 1
    }
}

proof fn lemma_nonneg_div(a: int, b: int)
    requires
        a >= 0,
        b > 0,
    ensures
        0 <= a / b <= a,
{
    assert(0 <= a / b <= a) by (nonlinear_arith)
        requires a >= 0, b > 0;
}

proof fn lemma_scaled_screen_fits(s: int, zoom: int)
    requires
        within(s, SCREEN_LIMIT as int),
        MIN_ZOOM <= zoom <= MAX_ZOOM,
    ensures
        within(s * 1000, SCREEN_LIMIT * 1000),
        within((s * (SUBPIXELS as int)) / zoom, SCREEN_LIMIT * 10),
{
    let x = s * 1000;
    lemma_fundamental_div_mod(x, zoom);
    lemma_mod_bound(x, zoom);
    assert(within(x / zoom, SCREEN_LIMIT * 10)) by (nonlinear_arith)
        requires
            within(x, SCREEN_LIMIT * 1000),
            MIN_ZOOM <= zoom <= MAX_ZOOM,
            x == zoom * (x / zoom) + x % zoom,
            0 <= x % zoom < zoom;
}

proof fn lemma_screen_fits(d: int, zoom: int)
    requires
        within(d, 2 * POSITION_LIMIT),
        MIN_ZOOM <= zoom <= MAX_ZOOM,
    ensures
        within(d * zoom, 2 * POSITION_LIMIT * MAX_ZOOM),
        within((d * zoom) / (SUBPIXELS as int), SCREEN_LIMIT as int),
{
    let x = d * zoom;
    assert(within(x, 2 * POSITION_LIMIT * MAX_ZOOM)) by (nonlinear_arith)
        requires within(d, 2 * POSITION_LIMIT), MIN_ZOOM <= zoom <= MAX_ZOOM, x == d * zoom;
    lemma_fundamental_div_mod(x, 1000);
    lemma_mod_bound(x, 1000);
}

} // verus!

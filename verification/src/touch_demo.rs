//! Screen arithmetic of the touch and tilt demo: a ball follows the finger,
//! a second ball rolls with the tilt measured by the motion sensor, and both
//! stay inside the content area below the header.
use vstd::prelude::*;

use crate::geometry::{Point, Rect, lemma_trunc_div_bounded, rect_fits, rect_intersection, rects_overlap, rect_overlap, trunc_div};
use crate::axs5106::TouchPoint;
use crate::qmi8658::Vec3i16;

verus! {

pub const SCREEN_WIDTH: i32 = 172;
pub const SCREEN_HEIGHT: i32 = 320;
pub const HEADER_HEIGHT: i32 = 56;
pub const CIRCLE_DIAMETER: u32 = 36;
pub const LEVEL_DIAMETER: u32 = 24;
pub const CIRCLE_MARGIN: i32 = 3;
pub const MOVE_THRESHOLD: i32 = 3;
pub const LEVEL_RANGE_RAW: i32 = 12_000;

/// `v` limited to `[lo, hi]`.
pub open spec fn clamped(v: int, lo: int, hi: int) -> int {
    if v < lo {
        lo
    } else if v > hi {
        hi
    } else {
        v
    }
}

/// The radius of a ball of the given diameter, as the demo computes it in `i32`.
pub open spec fn radius_of(diameter: u32) -> int {
    trunc_div((diameter as i32) as int, 2)
}

/// Smallest x a ball centre may take.
pub open spec fn ball_min_x(diameter: u32) -> int {
    radius_of(diameter) + CIRCLE_MARGIN
}

/// Largest x a ball centre may take.
pub open spec fn ball_max_x(diameter: u32) -> int {
    SCREEN_WIDTH - radius_of(diameter) - CIRCLE_MARGIN - 1
}

/// Smallest y a ball centre may take: below the header.
pub open spec fn ball_min_y(diameter: u32) -> int {
    HEADER_HEIGHT + radius_of(diameter) + CIRCLE_MARGIN
}

/// Largest y a ball centre may take.
pub open spec fn ball_max_y(diameter: u32) -> int {
    SCREEN_HEIGHT - radius_of(diameter) - CIRCLE_MARGIN - 1
}

/// A ball of this size fits in the content area with its margin.
pub open spec fn ball_fits(diameter: u32) -> bool {
    ball_min_x(diameter) <= ball_max_x(diameter) && ball_min_y(diameter) <= ball_max_y(diameter)
}

/// The nearest position to `point` where a ball of the given size fits.
pub open spec fn clamped_center(point: Point, diameter: u32) -> Point {
    Point {
        x: clamped(point.x as int, ball_min_x(diameter), ball_max_x(diameter)) as i32,
        y: clamped(point.y as int, ball_min_y(diameter), ball_max_y(diameter)) as i32,
    }
}

/// The square a ball covers, with its margin.
pub open spec fn ball_square(center: Point, diameter: u32) -> Rect {
    Rect {
        x: (center.x - radius_of(diameter) - CIRCLE_MARGIN) as i32,
        y: (center.y - radius_of(diameter) - CIRCLE_MARGIN) as i32,
        width: (diameter + 2 * CIRCLE_MARGIN) as u32,
        height: (diameter + 2 * CIRCLE_MARGIN) as u32,
    }
}

/// The square of a ball can be computed without overflow.
pub open spec fn ball_square_computable(center: Point, diameter: u32) -> bool {
    &&& center.x - radius_of(diameter) - CIRCLE_MARGIN >= i32::MIN
    &&& center.y - radius_of(diameter) - CIRCLE_MARGIN >= i32::MIN
    &&& center.x - radius_of(diameter) <= i32::MAX
    &&& center.y - radius_of(diameter) <= i32::MAX
    &&& diameter + 2 * CIRCLE_MARGIN <= u32::MAX
}

/// The area below the header.
pub open spec fn content_rect() -> Rect {
    Rect { x: 0, y: HEADER_HEIGHT as i32, width: SCREEN_WIDTH as u32, height: (SCREEN_HEIGHT - HEADER_HEIGHT) as u32 }
}

pub open spec fn abs_int(v: int) -> int {
    if v < 0 {
        -v
    } else {
        v
    }
}

/// A ball moved by at least the threshold along some axis.
pub open spec fn moved_far(old: Point, new: Point) -> bool {
    abs_int(new.x - old.x) >= MOVE_THRESHOLD || abs_int(new.y - old.y) >= MOVE_THRESHOLD
}

/// Horizontal travel of the tilt ball from the centre.
pub open spec fn level_travel_x() -> int {
    SCREEN_WIDTH / 2 - LEVEL_DIAMETER / 2 - CIRCLE_MARGIN - 2
}

/// Vertical travel of the tilt ball from the centre.
pub open spec fn level_travel_y() -> int {
    (SCREEN_HEIGHT - HEADER_HEIGHT) / 2 - LEVEL_DIAMETER / 2 - CIRCLE_MARGIN - 2
}

/// Where the tilt ball heads for an acceleration reading: the centre of the
/// content area, displaced against the x and y acceleration in proportion to
/// it (saturating at 12000 raw units), kept inside the content area.
pub open spec fn level_target(accel: Vec3i16) -> Point {
    let ax = clamped(accel.x as int, -LEVEL_RANGE_RAW as int, LEVEL_RANGE_RAW as int);
    let ay = clamped(accel.y as int, -LEVEL_RANGE_RAW as int, LEVEL_RANGE_RAW as int);
    let dx = -trunc_div(ax * level_travel_x(), LEVEL_RANGE_RAW as int);
    let dy = trunc_div(-ay * level_travel_y(), LEVEL_RANGE_RAW as int);
    clamped_center(
        Point { x: (SCREEN_WIDTH / 2 + dx) as i32, y: (HEADER_HEIGHT + (SCREEN_HEIGHT - HEADER_HEIGHT) / 2 + dy) as i32 },
        LEVEL_DIAMETER,
    )
}

/// A quarter of the way from `current` to `target`, rounded toward `current`.
pub open spec fn quarter_step(current: Point, target: Point) -> Point {
    Point {
        x: (current.x + trunc_div(target.x - current.x, 4)) as i32,
        y: (current.y + trunc_div(target.y - current.y, 4)) as i32,
    }
}

fn clamp_i32(v: i32, lo: i32, hi: i32) -> (r: i32)
    requires
        lo <= hi,
    ensures
        r == clamped(v as int, lo as int, hi as int),
{
    if v < lo {
        lo
    } else if v > hi {
        hi
    } else {
        v
    }
}

fn abs_i32(v: i32) -> (r: i32)
    requires
        v != i32::MIN,
    ensures
        r == abs_int(v as int),
{
    if v < 0 {
        -v
    } else {
        v
    }
}

/// The radius of a ball, halved toward zero.
fn radius(diameter: u32) -> (r: i32)
    ensures
        r == radius_of(diameter),
        -0x4000_0000 <= r <= 0x3FFF_FFFF,
{
    (diameter as i32) / 2
}

/// Moves a ball centre to the nearest position where the ball fits.
pub fn clamp_ball_center(point: Point, diameter: u32) -> (r: Point)
    requires
        ball_fits(diameter),
    ensures
        r == clamped_center(point, diameter),
{
    let radius = radius(diameter);
    let min_y = HEADER_HEIGHT + radius + CIRCLE_MARGIN;
    Point {
        x: clamp_i32(point.x, radius + CIRCLE_MARGIN, SCREEN_WIDTH - radius - CIRCLE_MARGIN - 1),
        y: clamp_i32(point.y, min_y, SCREEN_HEIGHT - radius - CIRCLE_MARGIN - 1),
    }
}

/// The square a ball covers, with its margin.
pub fn ball_bounds(center: Point, diameter: u32) -> (r: Rect)
    requires
        ball_square_computable(center, diameter),
    ensures
        r == ball_square(center, diameter),
{
    let radius = radius(diameter);
    Rect {
        x: center.x - radius - CIRCLE_MARGIN,
        y: center.y - radius - CIRCLE_MARGIN,
        width: diameter + (CIRCLE_MARGIN as u32) * 2,
        height: diameter + (CIRCLE_MARGIN as u32) * 2,
    }
}

/// The area below the header.
pub fn content_bounds() -> (r: Rect)
    ensures
        r == content_rect(),
{
    Rect { x: 0, y: HEADER_HEIGHT, width: SCREEN_WIDTH as u32, height: (SCREEN_HEIGHT - HEADER_HEIGHT) as u32 }
}

/// The part of a ball's square inside the content area, which erasing the ball
/// repaints; none when they do not meet.
pub fn erase_area(center: Point, diameter: u32) -> (r: Option<Rect>)
    requires
        ball_square_computable(center, diameter),
        rect_fits(ball_square(center, diameter)),
    ensures
        r == (if rects_overlap(ball_square(center, diameter), content_rect()) {
            Some(rect_overlap(ball_square(center, diameter), content_rect()))
        } else {
            None::<Rect>
        }),
{
    let area = rect_intersection(ball_bounds(center, diameter), content_bounds());
    if area.width == 0 || area.height == 0 {
        None
    } else {
        Some(area)
    }
}

/// Whether a ball moved far enough to be redrawn.
pub fn moved_enough(old: Point, new: Point) -> (r: bool)
    requires
        i32::MIN < new.x - old.x <= i32::MAX,
        i32::MIN < new.y - old.y <= i32::MAX,
    ensures
        r == moved_far(old, new),
{
    abs_i32(new.x - old.x) >= MOVE_THRESHOLD || abs_i32(new.y - old.y) >= MOVE_THRESHOLD
}

/// Where the tilt ball heads for an acceleration reading.
pub fn level_target_from_accel(accel: Vec3i16) -> (r: Point)
    ensures
        r == level_target(accel),
{
    let center_x = SCREEN_WIDTH / 2;
    let center_y = HEADER_HEIGHT + (SCREEN_HEIGHT - HEADER_HEIGHT) / 2;
    let radius = (LEVEL_DIAMETER as i32) / 2;
    let travel_x = (SCREEN_WIDTH / 2) - radius - CIRCLE_MARGIN - 2;
    let travel_y = ((SCREEN_HEIGHT - HEADER_HEIGHT) / 2) - radius - CIRCLE_MARGIN - 2;

    let ax = clamp_i32(accel.x as i32, -LEVEL_RANGE_RAW, LEVEL_RANGE_RAW);
    let ay = clamp_i32(accel.y as i32, -LEVEL_RANGE_RAW, LEVEL_RANGE_RAW);
    assert(travel_x == level_travel_x() && travel_y == level_travel_y());
    assert(-12000 * 69 <= ax * travel_x <= 12000 * 69) by (nonlinear_arith)
        requires
            -12000 <= ax <= 12000,
            travel_x == 69,
    ;
    assert(-12000 * 115 <= -ay * travel_y <= 12000 * 115) by (nonlinear_arith)
        requires
            -12000 <= ay <= 12000,
            travel_y == 115,
    ;
    let dx = -(ax * travel_x / LEVEL_RANGE_RAW);
    let dy = -ay * travel_y / LEVEL_RANGE_RAW;
    clamp_ball_center(Point { x: center_x + dx, y: center_y + dy }, LEVEL_DIAMETER)
}

/// Moves a quarter of the way toward the target.
pub fn smooth_step(current: Point, target: Point) -> (r: Point)
    requires
        i32::MIN <= target.x - current.x <= i32::MAX,
        i32::MIN <= target.y - current.y <= i32::MAX,
    ensures
        r == quarter_step(current, target),
{
    Point { x: current.x + (target.x - current.x) / 4, y: current.y + (target.y - current.y) / 4 }
}


/// The ball lies in the content area with its margin.
pub open spec fn ball_inside(center: Point, diameter: u32) -> bool {
    &&& ball_min_x(diameter) <= center.x <= ball_max_x(diameter)
    &&& ball_min_y(diameter) <= center.y <= ball_max_y(diameter)
}

/// What one round of the demo read from the touch controller.
#[derive(Debug, Clone, Copy, PartialEq, Eq)]
pub enum TouchReading {
    /// A finger at this point.
    Pressed(TouchPoint),
    /// No finger on the screen.
    Released,
    /// The read failed; the touch ball is left as it is.
    Failed,
}

/// What the demo shows: the touch ball, whether it is shown, and the tilt ball.
#[derive(Debug, Clone, Copy, PartialEq, Eq)]
pub struct DemoState {
    pub touch_circle: Point,
    pub touch_visible: bool,
    pub level_circle: Point,
}

/// The repainting a round asks for: the old balls to erase, the new ones to draw.
#[derive(Debug, Clone, Copy, PartialEq, Eq)]
pub struct Redraw {
    pub erase_level: Point,
    pub erase_touch: Option<Point>,
    pub draw_level: Point,
    pub draw_touch: Option<Point>,
}

/// Both balls lie in the content area.
pub open spec fn balls_inside(s: DemoState) -> bool {
    ball_inside(s.touch_circle, CIRCLE_DIAMETER) && ball_inside(s.level_circle, LEVEL_DIAMETER)
}

/// The demo's first picture: both balls a little below the middle of the screen.
pub open spec fn initial_demo_state() -> DemoState {
    DemoState { touch_circle: Point { x: 86, y: 180 }, touch_visible: false, level_circle: Point { x: 86, y: 180 } }
}

/// Where the touch ball goes for a reading: under the finger, kept inside.
pub open spec fn next_touch_circle(s: DemoState, touch: TouchReading) -> Point {
    match touch {
        TouchReading::Pressed(p) => clamped_center(Point { x: p.x as i32, y: p.y as i32 }, CIRCLE_DIAMETER),
        _ => s.touch_circle,
    }
}

/// Whether the touch ball is shown after a reading.
pub open spec fn next_touch_visible(s: DemoState, touch: TouchReading) -> bool {
    match touch {
        TouchReading::Pressed(_) => true,
        TouchReading::Released => false,
        TouchReading::Failed => s.touch_visible,
    }
}

/// Where the tilt ball goes: a quarter of the way to the target of a new
/// sample, or nowhere without one.
pub open spec fn next_level_circle(s: DemoState, accel: Option<Vec3i16>) -> Point {
    match accel {
        Some(a) => quarter_step(s.level_circle, level_target(a)),
        None => s.level_circle,
    }
}

/// A round changes the picture: the tilt ball moved far enough, the touch ball
/// appeared or vanished, or a shown touch ball moved far enough.
pub open spec fn demo_changed(s: DemoState, touch: TouchReading, accel: Option<Vec3i16>) -> bool {
    ||| moved_far(s.level_circle, next_level_circle(s, accel))
    ||| s.touch_visible != next_touch_visible(s, touch)
    ||| (next_touch_visible(s, touch) && moved_far(s.touch_circle, next_touch_circle(s, touch)))
}

/// One round of the demo: the next state and the repainting, if the picture
/// changes; otherwise the state stays as it was.
pub open spec fn demo_transition(s: DemoState, touch: TouchReading, accel: Option<Vec3i16>) -> (DemoState, Option<Redraw>) {
    if demo_changed(s, touch, accel) {
        let n = DemoState {
            touch_circle: next_touch_circle(s, touch),
            touch_visible: next_touch_visible(s, touch),
            level_circle: next_level_circle(s, accel),
        };
        (
            n,
            Some(
                Redraw {
                    erase_level: s.level_circle,
                    erase_touch: if s.touch_visible { Some(s.touch_circle) } else { None },
                    draw_level: n.level_circle,
                    draw_touch: if n.touch_visible { Some(n.touch_circle) } else { None },
                },
            ),
        )
    } else {
        (s, None)
    }
}

/// The positions the two balls may take, as numbers.
proof fn lemma_ball_limits()
    ensures
        ball_min_x(CIRCLE_DIAMETER) == 21 && ball_max_x(CIRCLE_DIAMETER) == 150,
        ball_min_y(CIRCLE_DIAMETER) == 77 && ball_max_y(CIRCLE_DIAMETER) == 298,
        ball_min_x(LEVEL_DIAMETER) == 15 && ball_max_x(LEVEL_DIAMETER) == 156,
        ball_min_y(LEVEL_DIAMETER) == 71 && ball_max_y(LEVEL_DIAMETER) == 304,
        ball_fits(CIRCLE_DIAMETER),
        ball_fits(LEVEL_DIAMETER),
{
    assert((CIRCLE_DIAMETER as i32) == 36);
    assert((LEVEL_DIAMETER as i32) == 24);
}

/// The touch and tilt demo: the state of the picture, whose balls always lie
/// in the content area.
pub struct TouchDemo {
    state: DemoState,
}

impl View for TouchDemo {
    type V = DemoState;

    closed spec fn view(&self) -> DemoState {
        self.state
    }
}

impl TouchDemo {
    #[verifier::type_invariant]
    spec fn balls_in_content(self) -> bool {
        balls_inside(self.state)
    }

    /// The first picture: no touch ball, the tilt ball below the middle.
    pub fn new() -> (r: Self)
        ensures
            r@ == initial_demo_state(),
    {
        proof {
            lemma_ball_limits();
        }
        let start = Point { x: SCREEN_WIDTH / 2, y: (SCREEN_HEIGHT / 2) + 20 };
        let state = DemoState {
            touch_circle: clamp_ball_center(start, CIRCLE_DIAMETER),
            touch_visible: false,
            level_circle: clamp_ball_center(start, LEVEL_DIAMETER),
        };
        TouchDemo { state }
    }

    /// What the demo shows now.
    pub fn state(&self) -> (r: DemoState)
        ensures
            r == self@,
            balls_inside(r),
    {
        proof {
            use_type_invariant(self);
        }
        self.state
    }

    /// Takes one round's touch reading and, if a sample was ready, its
    /// acceleration; returns the repainting the round needs, if any.
    pub fn step(&mut self, touch: TouchReading, accel: Option<Vec3i16>) -> (r: Option<Redraw>)
        ensures
            (final(self)@, r) == demo_transition(old(self)@, touch, accel),
    {
        proof {
            use_type_invariant(&*self);
            lemma_ball_limits();
        }
        let s = self.state;
        let (next_touch, next_visible) = match touch {
            TouchReading::Pressed(p) => (clamp_ball_center(Point { x: p.x as i32, y: p.y as i32 }, CIRCLE_DIAMETER), true),
            TouchReading::Released => (s.touch_circle, false),
            TouchReading::Failed => (s.touch_circle, s.touch_visible),
        };
        let next_level = match accel {
            Some(a) => {
                let target = level_target_from_accel(a);
                proof {
                    law_level_target_inside(a);
                    law_smooth_step_approaches(s.level_circle, target);
                }
                smooth_step(s.level_circle, target)
            },
            None => s.level_circle,
        };
        let level_changed = moved_enough(s.level_circle, next_level);
        let touch_changed = s.touch_visible != next_visible || (next_visible && moved_enough(s.touch_circle, next_touch));
        if level_changed || touch_changed {
            let next = DemoState { touch_circle: next_touch, touch_visible: next_visible, level_circle: next_level };
            self.state = next;
            Some(
                Redraw {
                    erase_level: s.level_circle,
                    erase_touch: if s.touch_visible { Some(s.touch_circle) } else { None },
                    draw_level: next_level,
                    draw_touch: if next_visible { Some(next_touch) } else { None },
                },
            )
        } else {
            None
        }
    }
}

/// A clamped ball lies inside the content area with its margin, a ball that
/// already fits is left where it is, and clamping twice changes nothing.
pub proof fn law_clamp_keeps_ball_inside(point: Point, diameter: u32)
    requires
        ball_fits(diameter),
    ensures
        ball_min_x(diameter) <= clamped_center(point, diameter).x <= ball_max_x(diameter),
        ball_min_y(diameter) <= clamped_center(point, diameter).y <= ball_max_y(diameter),
        (ball_min_x(diameter) <= point.x <= ball_max_x(diameter) && ball_min_y(diameter) <= point.y <= ball_max_y(
            diameter,
        )) ==> clamped_center(point, diameter) == point,
        clamped_center(clamped_center(point, diameter), diameter) == clamped_center(point, diameter),
{
}

/// The tilt ball's target always leaves the tilt ball inside the content area.
pub proof fn law_level_target_inside(accel: Vec3i16)
    ensures
        ball_min_x(LEVEL_DIAMETER) <= level_target(accel).x <= ball_max_x(LEVEL_DIAMETER),
        ball_min_y(LEVEL_DIAMETER) <= level_target(accel).y <= ball_max_y(LEVEL_DIAMETER),
        level_target(Vec3i16 { x: 0, y: 0, z: accel.z }) == (Point { x: 86, y: 188 }),
{
    assert((LEVEL_DIAMETER as i32) == 24);
    assert(radius_of(LEVEL_DIAMETER) == 12);
    assert(ball_fits(LEVEL_DIAMETER));
    assert(trunc_div(0, LEVEL_RANGE_RAW as int) == 0);
    assert(level_travel_x() == 69 && level_travel_y() == 115);
}

/// A step toward a target stays between the current position and the target
/// on each axis, and a ball at its target stays there.
pub proof fn law_smooth_step_approaches(current: Point, target: Point)
    requires
        i32::MIN <= target.x - current.x <= i32::MAX,
        i32::MIN <= target.y - current.y <= i32::MAX,
    ensures
        current.x <= target.x ==> current.x <= quarter_step(current, target).x <= target.x,
        target.x <= current.x ==> target.x <= quarter_step(current, target).x <= current.x,
        current.y <= target.y ==> current.y <= quarter_step(current, target).y <= target.y,
        target.y <= current.y ==> target.y <= quarter_step(current, target).y <= current.y,
        quarter_step(target, target) == target,
{
    assert(trunc_div(0, 4) == 0);
}

/// Whether a ball moved enough does not depend on the direction of the move.
pub proof fn law_moved_far_symmetric(a: Point, b: Point)
    ensures
        moved_far(a, b) == moved_far(b, a),
{
}

/// Every round keeps both balls in the content area.
pub proof fn law_demo_keeps_balls_inside(s: DemoState, touch: TouchReading, accel: Option<Vec3i16>)
    requires
        balls_inside(s),
    ensures
        balls_inside(demo_transition(s, touch, accel).0),
{
    lemma_ball_limits();
    if let TouchReading::Pressed(p) = touch {
        law_clamp_keeps_ball_inside(Point { x: p.x as i32, y: p.y as i32 }, CIRCLE_DIAMETER);
    }
    if let Some(a) = accel {
        law_level_target_inside(a);
        law_smooth_step_approaches(s.level_circle, level_target(a));
    }
}

/// A repainting erases the balls of the old picture and draws those of the
/// new one; a round without repainting leaves the state as it was.
pub proof fn law_redraw_follows_state(s: DemoState, touch: TouchReading, accel: Option<Vec3i16>)
    ensures
        ({
            let (n, r) = demo_transition(s, touch, accel);
            &&& r is None <==> !demo_changed(s, touch, accel)
            &&& r is None ==> n == s
            &&& r matches Some(d) ==> {
                &&& d.erase_level == s.level_circle
                &&& d.erase_touch == (if s.touch_visible { Some(s.touch_circle) } else { None::<Point> })
                &&& d.draw_level == n.level_circle
                &&& d.draw_touch == (if n.touch_visible { Some(n.touch_circle) } else { None::<Point> })
            }
        }),
{
}

/// A round in which the touch read failed and no sample was ready changes nothing.
pub proof fn law_nothing_read_nothing_drawn(s: DemoState)
    ensures
        demo_transition(s, TouchReading::Failed, None) == (s, None::<Redraw>),
{
}

/// A shown touch ball follows the finger: when the ball is shown and the
/// finger is still down at a place whose clamped position is at least the
/// move threshold away from the ball on some axis, the round asks for a
/// repainting that erases the ball where it was and draws it at the clamped
/// finger position, which is where the ball now is.
pub proof fn law_touch_ball_follows_finger(s: DemoState, finger: TouchPoint, accel: Option<Vec3i16>)
    requires
        s.touch_visible,
        ({
            let target = clamped_center(Point { x: finger.x as i32, y: finger.y as i32 }, CIRCLE_DIAMETER);
            ||| target.x - s.touch_circle.x >= 3
            ||| s.touch_circle.x - target.x >= 3
            ||| target.y - s.touch_circle.y >= 3
            ||| s.touch_circle.y - target.y >= 3
        }),
    ensures
        ({
            let target = clamped_center(Point { x: finger.x as i32, y: finger.y as i32 }, CIRCLE_DIAMETER);
            let (n, r) = demo_transition(s, TouchReading::Pressed(finger), accel);
            &&& n.touch_visible
            &&& n.touch_circle == target
            &&& r matches Some(d) && d.erase_touch == Some(s.touch_circle) && d.draw_touch == Some(target)
        }),
{
}

/// Lifting the finger hides a shown touch ball: the round repaints, erasing the
/// ball where it was and drawing no touch ball, and the ball is no longer shown.
/// A failed touch read leaves the touch ball as it is.
pub proof fn law_release_hides_touch_ball(s: DemoState, accel: Option<Vec3i16>)
    ensures
        s.touch_visible ==> ({
            let (n, r) = demo_transition(s, TouchReading::Released, accel);
            &&& !n.touch_visible
            &&& r matches Some(d) && d.erase_touch == Some(s.touch_circle) && d.draw_touch is None
        }),
        ({
            let (n, r) = demo_transition(s, TouchReading::Failed, accel);
            &&& n.touch_visible == s.touch_visible
            &&& n.touch_circle == s.touch_circle
        }),
{
}

/// A ball counts as moved when it moved by at least 3 pixels along some axis.
pub proof fn law_moved_far_threshold(a: Point, b: Point)
    ensures
        moved_far(a, b) <==> (b.x - a.x >= 3 || a.x - b.x >= 3 || b.y - a.y >= 3 || a.y - b.y >= 3),
{
}

/// The tilt ball heads against the tilt: a positive x acceleration sends it
/// left of the centre column (86) and a negative one right of it; a positive y
/// acceleration sends it above the centre row (188) and a negative one below.
pub proof fn law_level_target_against_tilt(accel: Vec3i16)
    ensures
        accel.x >= 0 ==> level_target(accel).x <= 86,
        accel.x <= 0 ==> level_target(accel).x >= 86,
        accel.y >= 0 ==> level_target(accel).y <= 188,
        accel.y <= 0 ==> level_target(accel).y >= 188,
{
    assert((LEVEL_DIAMETER as i32) == 24);
    assert(level_travel_x() == 69 && level_travel_y() == 115);
    let ax = clamped(accel.x as int, -12000, 12000);
    let ay = clamped(accel.y as int, -12000, 12000);
    assert(0 <= ax ==> 0 <= ax * 69) by (nonlinear_arith);
    assert(ax <= 0 ==> ax * 69 <= 0) by (nonlinear_arith);
    assert(0 <= ay ==> -ay * 115 <= 0) by (nonlinear_arith);
    assert(ay <= 0 ==> 0 <= -ay * 115) by (nonlinear_arith);
    assert(-12000 * 69 <= ax * 69 <= 12000 * 69) by (nonlinear_arith)
        requires
            -12000 <= ax <= 12000,
    ;
    assert(-12000 * 115 <= -ay * 115 <= 12000 * 115) by (nonlinear_arith)
        requires
            -12000 <= ay <= 12000,
    ;
    lemma_trunc_div_bounded(ax * 69, 12000);
    lemma_trunc_div_bounded(-ay * 115, 12000);
}

} // verus!

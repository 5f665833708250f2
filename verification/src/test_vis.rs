//! A test pattern: two fixed discs in the corners and a cluster of discs
//! that wanders over the panel.
//!
//! Where the cluster is at a given time is not decided here: whoever runs
//! the pattern places the cluster before each frame.

use crate::color::{Pixel, Point, Rgb888};
use crate::visualisation::{TestVisUpdate, Visualisation};
use embedded_graphics::pixelcolor::BinaryColor;
use embedded_graphics::prelude::Primitive;
use embedded_graphics::primitives::PrimitiveStyle;
use vstd::prelude::*;

verus! {

/// A filled disc.
#[derive(Clone, Copy, Debug, PartialEq, Eq, Structural)]
pub struct Circle {
    pub center: Point,
    pub diameter: u32,
    pub color: Rgb888,
}

/// Number of times that the last disc of the pattern is drawn.
pub const REPEATS: usize = 10;

/// The furthest from the origin, along each axis, that the cluster can be
/// placed.
pub const CLUSTER_LIMIT: i32 = 0x8000;

/// The furthest from the origin, along each axis, that the centre of a disc
/// can lie for the disc to be turned into pixels.
pub const CENTER_LIMIT: i32 = 0x1_0000;

/// The largest diameter of a disc that can be turned into pixels.
pub const DIAMETER_LIMIT: u32 = 0x1000;

/// The points of the filled disc of diameter `diameter` around `(x, y)`, in
/// the order in which `embedded-graphics` hands them out: what the pixel
/// iterator of a `Circle::with_center` yields when it is styled with a fill
/// and no stroke.
pub uninterp spec fn disc_points(x: int, y: int, diameter: int) -> Seq<(i32, i32)>;

/// `embedded_graphics::primitives::Circle::with_center`, styled by
/// `PrimitiveStyle::with_fill`, and the `pixels` of that: the points of the
/// filled disc. The points depend on the centre and the diameter alone and
/// are computed in whole numbers. Within the limits on the centre and the
/// diameter none of the sums, doubled coordinates and squared distances
/// that the crate forms comes near the ends of 32 bits, so the call does
/// not panic.
#[verifier::external_body]
fn circle_points(x: i32, y: i32, diameter: u32) -> (points: Vec<(i32, i32)>)
    requires
        -CENTER_LIMIT <= x <= CENTER_LIMIT,
        -CENTER_LIMIT <= y <= CENTER_LIMIT,
        diameter <= DIAMETER_LIMIT,
    ensures
        points@ == disc_points(x as int, y as int, diameter as int),
{
    embedded_graphics::primitives::Circle::with_center(
        embedded_graphics::geometry::Point::new(x, y),
        diameter,
    ).into_styled(PrimitiveStyle::with_fill(BinaryColor::On)).pixels().map(
        |pixel| (pixel.0.x, pixel.0.y),
    ).collect()
}

/// The points `points` as pixels of colour `color`.
pub open spec fn coloured(points: Seq<(i32, i32)>, color: Rgb888) -> Seq<Pixel> {
    Seq::new(points.len(), |k: int| Pixel(Point { x: points[k].0, y: points[k].1 }, color))
}

/// The pixels of one disc.
pub open spec fn disc_pixels(circle: Circle) -> Seq<Pixel> {
    coloured(
        disc_points(circle.center.x as int, circle.center.y as int, circle.diameter as int),
        circle.color,
    )
}

/// The pixels of the discs `circles`, disc after disc.
pub open spec fn discs_frame(circles: Seq<Circle>) -> Seq<Pixel>
    decreases circles.len(),
{
    if circles.len() == 0 {
        Seq::empty()
    } else {
        discs_frame(circles.drop_last()) + disc_pixels(circles.last())
    }
}

/// True if `circle` can be turned into pixels.
pub open spec fn within_limits(circle: Circle) -> bool {
    &&& -CENTER_LIMIT <= circle.center.x <= CENTER_LIMIT
    &&& -CENTER_LIMIT <= circle.center.y <= CENTER_LIMIT
    &&& circle.diameter <= DIAMETER_LIMIT
}

/// Appends the points `points` to `pixels`, as pixels of colour `color`.
pub fn paint_points(points: &Vec<(i32, i32)>, color: Rgb888, pixels: &mut Vec<Pixel>)
    ensures
        final(pixels)@ == old(pixels)@ + coloured(points@, color),
{
    let n: usize = points.len();
    let mut k: usize = 0;
    while k < n
        invariant
            k <= n,
            n == points@.len(),
            pixels@ == old(pixels)@ + coloured(points@.take(k as int), color),
        decreases n - k,
    {
        let (x, y) = points[k];
        pixels.push(Pixel(Point::new(x, y), color));
        assert(pixels@ =~= old(pixels)@ + coloured(points@.take(k + 1), color));
        k += 1;
    }
    assert(points@.take(n as int) =~= points@);
}

/// Turns the discs `circles` into pixels, disc after disc.
pub fn rasterise(circles: &Vec<Circle>) -> (pixels: Vec<Pixel>)
    requires
        forall|k: int| 0 <= k < circles@.len() ==> within_limits(#[trigger] circles@[k]),
    ensures
        pixels@ == discs_frame(circles@),
{
    let mut pixels: Vec<Pixel> = Vec::new();
    let n: usize = circles.len();
    let mut k: usize = 0;
    while k < n
        invariant
            k <= n,
            n == circles@.len(),
            forall|c: int| 0 <= c < circles@.len() ==> within_limits(#[trigger] circles@[c]),
            pixels@ == discs_frame(circles@.take(k as int)),
        decreases n - k,
    {
        let circle = circles[k];
        assert(within_limits(circles@[k as int]));
        let points = circle_points(circle.center.x, circle.center.y, circle.diameter);
        paint_points(&points, circle.color, &mut pixels);
        proof {
            assert(circles@.take(k + 1).drop_last() =~= circles@.take(k as int));
            assert(circles@.take(k + 1).last() == circles@[k as int]);
        }
        k += 1;
    }
    assert(circles@.take(n as int) =~= circles@);
    pixels
}

/// The diameter of the green disc when the cluster is at column `i`.
pub open spec fn green_diameter(i: int) -> u32 {
    if i > 0 {
        (i / 10) as u32
    } else {
        0
    }
}

/// The discs of the pattern with the cluster at `(i, j)`, in the order in
/// which they are drawn: first the six discs that are drawn once.
pub open spec fn pattern_head(i: int, j: int) -> Seq<Circle> {
    seq![
        Circle {
            center: Point { x: 0, y: 0 },
            diameter: 30,
            color: Rgb888 { r: 165, g: 42, b: 42 },
        },
        Circle {
            center: Point { x: 0, y: 32 },
            diameter: 30,
            color: Rgb888 { r: 0, g: 100, b: 0 },
        },
        Circle {
            center: Point { x: i as i32, y: j as i32 },
            diameter: 30,
            color: Rgb888 { r: 255, g: 255, b: 255 },
        },
        Circle {
            center: Point { x: i as i32, y: j as i32 },
            diameter: 15,
            color: Rgb888 { r: 255, g: 0, b: 0 },
        },
        Circle {
            center: Point { x: (i + 4) as i32, y: (j + 4) as i32 },
            diameter: 4,
            color: Rgb888 { r: 0, g: 0, b: 255 },
        },
        Circle {
            center: Point { x: (i - 4) as i32, y: (j - 4) as i32 },
            diameter: green_diameter(i),
            color: Rgb888 { r: 0, g: 255, b: 0 },
        },
    ]
}

/// The yellow disc, which is drawn ten times.
pub open spec fn pattern_tail(i: int, j: int) -> Circle {
    Circle {
        center: Point { x: (i + 6) as i32, y: (j - 8) as i32 },
        diameter: 4,
        color: Rgb888 { r: 255, g: 255, b: 0 },
    }
}

/// All sixteen discs of the pattern with the cluster at `(i, j)`, in the
/// order in which they are drawn.
pub open spec fn pattern_of(i: int, j: int) -> Seq<Circle> {
    pattern_head(i, j) + Seq::new(REPEATS as nat, |k: int| pattern_tail(i, j))
}

/// True if the cluster can be placed at `(i, j)`.
pub open spec fn cluster_in_reach(i: int, j: int) -> bool {
    -CLUSTER_LIMIT <= i <= CLUSTER_LIMIT && -CLUSTER_LIMIT <= j <= CLUSTER_LIMIT
}

pub struct TestVis {
    /// Time since the start, in microseconds.
    time_us: u64,
    /// Where the cluster is.
    cluster: (i32, i32),
}

/// What a `TestVis` holds.
pub ghost struct TestVisView {
    /// Time since the start, in microseconds.
    pub time_us: u64,
    /// Column and row of the cluster.
    pub cluster: (int, int),
}

impl View for TestVis {
    type V = TestVisView;

    closed spec fn view(&self) -> TestVisView {
        TestVisView { time_us: self.time_us, cluster: (self.cluster.0 as int, self.cluster.1 as int) }
    }
}

/// The time `delta_time_us` microseconds after `time_us`; it stops at the
/// largest value that can be held.
pub open spec fn later(time_us: u64, delta_time_us: u32) -> u64 {
    if time_us + delta_time_us > u64::MAX {
        u64::MAX
    } else {
        (time_us + delta_time_us) as u64
    }
}

impl TestVis {
    /// The pattern is well formed if its cluster is in reach.
    pub open spec fn wf(&self) -> bool {
        cluster_in_reach(self@.cluster.0, self@.cluster.1)
    }

    /// The pattern at time 0, with the cluster where it starts: at
    /// `(32, 31)`.
    pub fn new() -> (vis: Self)
        ensures
            vis.wf(),
            vis@ == (TestVisView { time_us: 0, cluster: (32, 31) }),
    {
        TestVis { time_us: 0, cluster: (32, 31) }
    }

    /// Time since the start, in microseconds.
    pub fn time_us(&self) -> (t: u64)
        ensures
            t == self@.time_us,
    {
        self.time_us
    }

    /// Where the cluster is.
    pub fn cluster(&self) -> (at: (i32, i32))
        ensures
            (at.0 as int, at.1 as int) == self@.cluster,
    {
        self.cluster
    }

    /// Tells whether the cluster can be placed at `(i, j)`.
    pub fn in_reach(i: i32, j: i32) -> (ok: bool)
        ensures
            ok == cluster_in_reach(i as int, j as int),
    {
        -CLUSTER_LIMIT <= i && i <= CLUSTER_LIMIT && -CLUSTER_LIMIT <= j && j <= CLUSTER_LIMIT
    }

    /// Places the cluster at `(i, j)`.
    pub fn place_cluster(&mut self, i: i32, j: i32)
        requires
            cluster_in_reach(i as int, j as int),
        ensures
            final(self).wf(),
            final(self)@ == (TestVisView { time_us: old(self)@.time_us, cluster: (i as int, j as int) }),
    {
        self.cluster = (i, j);
    }

    /// The discs of the frame in which the cluster is at `(i, j)`, in the
    /// order in which they are drawn.
    pub fn pattern(i: i32, j: i32) -> (circles: Vec<Circle>)
        requires
            cluster_in_reach(i as int, j as int),
        ensures
            circles@ == pattern_of(i as int, j as int),
            forall|k: int| 0 <= k < circles@.len() ==> within_limits(#[trigger] circles@[k]),
    {
        let mut circles: Vec<Circle> = Vec::new();
        circles.push(
            Circle { center: Point::new(0, 0), diameter: 30, color: Rgb888::css_brown() },
        );
        circles.push(
            Circle { center: Point::new(0, 32), diameter: 30, color: Rgb888::css_dark_green() },
        );
        circles.push(Circle { center: Point::new(i, j), diameter: 30, color: Rgb888::white() });
        circles.push(Circle { center: Point::new(i, j), diameter: 15, color: Rgb888::red() });
        circles.push(
            Circle { center: Point::new(i + 4, j + 4), diameter: 4, color: Rgb888::blue() },
        );
        let green: u32 = if i > 0 {
            i as u32 / 10
        } else {
            0
        };
        circles.push(
            Circle { center: Point::new(i - 4, j - 4), diameter: green, color: Rgb888::green() },
        );
        assert(circles@ =~= pattern_head(i as int, j as int));
        let mut n: usize = 0;
        while n < REPEATS
            invariant
                n <= REPEATS,
                cluster_in_reach(i as int, j as int),
                circles@ == pattern_head(i as int, j as int) + Seq::new(
                    n as nat,
                    |k: int| pattern_tail(i as int, j as int),
                ),
                forall|k: int| 0 <= k < circles@.len() ==> within_limits(#[trigger] circles@[k]),
            decreases REPEATS - n,
        {
            circles.push(
                Circle { center: Point::new(i + 6, j - 8), diameter: 4, color: Rgb888::yellow() },
            );
            assert(circles@ =~= pattern_head(i as int, j as int) + Seq::new(
                (n + 1) as nat,
                |k: int| pattern_tail(i as int, j as int),
            ));
            n += 1;
        }
        circles
    }
}

impl Visualisation for TestVis {
    type StateUpdate = TestVisUpdate;

    open spec fn wf(&self) -> bool {
        TestVis::wf(self)
    }

    /// An update lets the time pass; the cluster stays where it was placed.
    open spec fn advanced_to(&self, after: &Self, delta_time_us: u32) -> bool {
        after@ == (TestVisView {
            time_us: later(self@.time_us, delta_time_us),
            cluster: self@.cluster,
        })
    }

    /// The pixels of the sixteen discs of the pattern, disc after disc.
    open spec fn frame(&self) -> Seq<Pixel> {
        discs_frame(pattern_of(self@.cluster.0, self@.cluster.1))
    }

    /// Lets `delta_time_us` microseconds pass and asks for a new frame. The
    /// time stops at the largest value that can be held.
    fn update(&mut self, delta_time_us: u32) -> (redraw: bool)
        ensures
            redraw,
    {
        self.time_us = self.time_us.saturating_add(delta_time_us as u64);
        true
    }

    /// The pixels of the pattern with the cluster where it was placed.
    fn draw(&mut self) -> (pixels: Vec<Pixel>) {
        let circles = Self::pattern(self.cluster.0, self.cluster.1);
        rasterise(&circles)
    }
}

} // verus!

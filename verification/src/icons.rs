//! The icons, as drawings that a painter can follow.
//!
//! Every icon is a list of shapes in whole numbers, without a word about
//! pixels: the caller scales it to whatever square it paints into. Strokes are
//! placed on a grid that spans the square, with the origin at the top left, as
//! in the Feather-style artwork that most of the icons follow (a 24x24 view
//! box); rounded corners are simplified to straight ones. What is round is
//! placed about the centre of the square, in ten-thousandths of its width.

use vstd::prelude::*;

verus! {

/// A point of the grid.
#[derive(Debug, Clone, Copy, PartialEq, Eq, Structural)]
pub struct Point {
    pub x: i32,
    pub y: i32,
}

/// What a filled shape is painted with.
#[derive(Debug, Clone, Copy, PartialEq, Eq, Structural)]
pub enum Ink {
    /// The colour of the icon.
    Icon,
    /// The colour behind the icon: the shape cuts away what is under it.
    Background,
}

#[derive(Debug, Clone, Copy, PartialEq, Eq, Structural)]
pub enum Shape {
    /// A straight stroke between two points of the grid.
    Segment { from: Point, to: Point },
    /// Part of a circle about a point of the grid, from one angle to another,
    /// as a line of `segments` equal steps.
    Arc { center: Point, radius: i32, start_deg: i32, end_deg: i32, segments: u32 },
    /// A straight stroke, its ends given from the centre.
    CenterSegment { from: Point, to: Point },
    /// The outline of a circle about the centre.
    Ring { radius: i32 },
    /// A filled circle, its own centre given from that of the square. It is
    /// never painted smaller than `least_tenths` tenths of a pixel.
    Disc { center: Point, radius: i32, least_tenths: u32, ink: Ink },
    /// `count` strokes about the centre, each an equal turn further, between
    /// two distances from it.
    Rays { count: u32, inner: i32, outer: i32 },
}

/// A drawing: the number of grid steps along each side of the square, and the
/// shapes, the lowest first.
pub struct Icon {
    pub grid: i32,
    pub shapes: Vec<Shape>,
}

/// Half the width of the square, in the unit of what is placed about its
/// centre.
pub const HALF_WIDTH: i32 = 5000;

pub open spec fn point(x: int, y: int) -> Point {
    Point { x: x as i32, y: y as i32 }
}

/// The strokes of an open line through the points.
pub open spec fn line_through(points: Seq<Point>) -> Seq<Shape> {
    Seq::new(
        (if points.len() == 0 {
            0
        } else {
            points.len() - 1
        }) as nat,
        |i: int| Shape::Segment { from: points[i], to: points[i + 1] },
    )
}

pub open spec fn stroke(x0: int, y0: int, x1: int, y1: int) -> Shape {
    Shape::Segment { from: point(x0, y0), to: point(x1, y1) }
}

/// The point lies in the square.
pub open spec fn on_grid(grid: i32, p: Point) -> bool {
    0 <= p.x <= grid && 0 <= p.y <= grid
}

/// A circle of this radius about this point lies in the square, both given
/// from the centre.
pub open spec fn about_center(p: Point, radius: int) -> bool {
    &&& 0 <= radius
    &&& -HALF_WIDTH <= p.x - radius && p.x + radius <= HALF_WIDTH
    &&& -HALF_WIDTH <= p.y - radius && p.y + radius <= HALF_WIDTH
}

/// The shape lies in the square.
pub open spec fn inside(grid: i32, shape: Shape) -> bool {
    match shape {
        Shape::Segment { from, to } => on_grid(grid, from) && on_grid(grid, to),
        Shape::Arc { center, radius, .. } => {
            &&& 0 <= radius
            &&& 0 <= center.x - radius && center.x + radius <= grid
            &&& 0 <= center.y - radius && center.y + radius <= grid
        },
        Shape::CenterSegment { from, to } => about_center(from, 0) && about_center(to, 0),
        Shape::Ring { radius } => about_center(point(0, 0), radius as int),
        Shape::Disc { center, radius, .. } => about_center(center, radius as int),
        Shape::Rays { inner, outer, .. } => 0 <= inner <= outer && about_center(
            point(0, 0),
            outer as int,
        ),
    }
}

/// The icon is drawn only inside the square that it is given.
pub open spec fn drawn_inside(icon: Icon) -> bool {
    icon.grid > 0 && forall|i: int|
        0 <= i < icon.shapes@.len() ==> inside(icon.grid, #[trigger] icon.shapes@[i])
}

fn at(x: i32, y: i32) -> (r: Point)
    ensures
        r == point(x as int, y as int),
{
    Point { x, y }
}

/// Adds consecutive line segments through `points`, open (not closed).
fn polyline(shapes: &mut Vec<Shape>, points: Vec<Point>)
    ensures
        final(shapes)@ == old(shapes)@ + line_through(points@),
{
    let mut i: usize = 1;
    let ghost before = shapes@;
    assert(shapes@ =~= before + line_through(points@).take(0));
    while i < points.len()
        invariant
            1 <= i,
            i <= points@.len() || (points@.len() == 0 && i == 1),
            shapes@ == before + line_through(points@).take(i - 1),
        decreases points@.len() - i,
    {
        let segment = Shape::Segment { from: points[i - 1], to: points[i] };
        shapes.push(segment);
        assert(line_through(points@).take(i as int) =~= line_through(points@).take(i - 1).push(
            segment,
        ));
        assert(shapes@ =~= before + line_through(points@).take(i as int));
        i = i + 1;
    }
    assert(line_through(points@).take(i - 1) =~= line_through(points@));
}

fn segment(shapes: &mut Vec<Shape>, x0: i32, y0: i32, x1: i32, y1: i32)
    ensures
        final(shapes)@ == old(shapes)@.push(stroke(x0 as int, y0 as int, x1 as int, y1 as int)),
{
    shapes.push(Shape::Segment { from: at(x0, y0), to: at(x1, y1) });
}

/// A tray with a downward arrow.
pub fn download() -> (r: Icon)
    ensures
        r.grid == 24,
        r.shapes@ == line_through(
            seq![
                point(21, 15),
                point(21, 19),
                point(19, 21),
                point(5, 21),
                point(3, 19),
                point(3, 15),
            ],
        ) + line_through(seq![point(7, 10), point(12, 15), point(17, 10)]) + seq![
            stroke(12, 15, 12, 3),
        ],
        drawn_inside(r),
{
    let mut shapes: Vec<Shape> = Vec::new();
    let tray = vec![at(21, 15), at(21, 19), at(19, 21), at(5, 21), at(3, 19), at(3, 15)];
    assert(tray@ =~= seq![
        point(21, 15),
        point(21, 19),
        point(19, 21),
        point(5, 21),
        point(3, 19),
        point(3, 15),
    ]);
    polyline(&mut shapes, tray);
    let head = vec![at(7, 10), at(12, 15), at(17, 10)];
    assert(head@ =~= seq![point(7, 10), point(12, 15), point(17, 10)]);
    polyline(&mut shapes, head);
    segment(&mut shapes, 12, 15, 12, 3);
    Icon { grid: 24, shapes }
}

/// A checkmark.
pub fn check() -> (r: Icon)
    ensures
        r.grid == 24,
        r.shapes@ == line_through(seq![point(20, 6), point(9, 17), point(4, 12)]),
        drawn_inside(r),
{
    let mut shapes: Vec<Shape> = Vec::new();
    let mark = vec![at(20, 6), at(9, 17), at(4, 12)];
    assert(mark@ =~= seq![point(20, 6), point(9, 17), point(4, 12)]);
    polyline(&mut shapes, mark);
    assert(shapes@ =~= line_through(seq![point(20, 6), point(9, 17), point(4, 12)]));
    Icon { grid: 24, shapes }
}

/// An X mark.
pub fn cross() -> (r: Icon)
    ensures
        r.grid == 24,
        r.shapes@ == seq![stroke(18, 6, 6, 18), stroke(6, 6, 18, 18)],
        drawn_inside(r),
{
    let mut shapes: Vec<Shape> = Vec::new();
    segment(&mut shapes, 18, 6, 6, 18);
    segment(&mut shapes, 6, 6, 18, 18);
    assert(shapes@ =~= seq![stroke(18, 6, 6, 18), stroke(6, 6, 18, 18)]);
    Icon { grid: 24, shapes }
}

/// A folder-plus outline.
pub fn folder() -> (r: Icon)
    ensures
        r.grid == 24,
        r.shapes@ == line_through(
            seq![
                point(22, 19),
                point(20, 21),
                point(4, 21),
                point(2, 19),
                point(2, 5),
                point(4, 3),
                point(9, 3),
                point(11, 6),
                point(20, 6),
                point(22, 8),
                point(22, 19),
            ],
        ) + seq![stroke(12, 11, 12, 17), stroke(9, 14, 15, 14)],
        drawn_inside(r),
{
    let mut shapes: Vec<Shape> = Vec::new();
    let outline = vec![
        at(22, 19),
        at(20, 21),
        at(4, 21),
        at(2, 19),
        at(2, 5),
        at(4, 3),
        at(9, 3),
        at(11, 6),
        at(20, 6),
        at(22, 8),
        at(22, 19),
    ];
    assert(outline@ =~= seq![
        point(22, 19),
        point(20, 21),
        point(4, 21),
        point(2, 19),
        point(2, 5),
        point(4, 3),
        point(9, 3),
        point(11, 6),
        point(20, 6),
        point(22, 8),
        point(22, 19),
    ]);
    polyline(&mut shapes, outline);
    segment(&mut shapes, 12, 11, 12, 17);
    segment(&mut shapes, 9, 14, 15, 14);
    assert(shapes@ =~= line_through(
        seq![
            point(22, 19),
            point(20, 21),
            point(4, 21),
            point(2, 19),
            point(2, 5),
            point(4, 3),
            point(9, 3),
            point(11, 6),
            point(20, 6),
            point(22, 8),
            point(22, 19),
        ],
    ) + seq![stroke(12, 11, 12, 17), stroke(9, 14, 15, 14)]);
    Icon { grid: 24, shapes }
}

/// An arrow pointing right.
pub fn launch() -> (r: Icon)
    ensures
        r.grid == 24,
        r.shapes@ == seq![stroke(5, 12, 19, 12)] + line_through(
            seq![point(12, 5), point(19, 12), point(12, 19)],
        ),
        drawn_inside(r),
{
    let mut shapes: Vec<Shape> = Vec::new();
    segment(&mut shapes, 5, 12, 19, 12);
    let head = vec![at(12, 5), at(19, 12), at(12, 19)];
    assert(head@ =~= seq![point(12, 5), point(19, 12), point(12, 19)]);
    polyline(&mut shapes, head);
    assert(shapes@ =~= seq![stroke(5, 12, 19, 12)] + line_through(
        seq![point(12, 5), point(19, 12), point(12, 19)],
    ));
    Icon { grid: 24, shapes }
}

/// A padlock: its body, and a shackle of two strokes and a half circle.
pub fn lock() -> (r: Icon)
    ensures
        r.grid == 24,
        r.shapes@ == line_through(
            seq![point(3, 11), point(21, 11), point(21, 22), point(3, 22), point(3, 11)],
        ) + seq![
            stroke(7, 11, 7, 7),
            Shape::Arc {
                center: point(12, 7),
                radius: 5,
                start_deg: 180,
                end_deg: 360,
                segments: 16,
            },
            stroke(17, 7, 17, 11),
        ],
        drawn_inside(r),
{
    let mut shapes: Vec<Shape> = Vec::new();
    let body = vec![at(3, 11), at(21, 11), at(21, 22), at(3, 22), at(3, 11)];
    assert(body@ =~= seq![point(3, 11), point(21, 11), point(21, 22), point(3, 22), point(3, 11)]);
    polyline(&mut shapes, body);
    segment(&mut shapes, 7, 11, 7, 7);
    shapes.push(
        Shape::Arc { center: at(12, 7), radius: 5, start_deg: 180, end_deg: 360, segments: 16 },
    );
    segment(&mut shapes, 17, 7, 17, 11);
    assert(shapes@ =~= line_through(
        seq![point(3, 11), point(21, 11), point(21, 22), point(3, 22), point(3, 11)],
    ) + seq![
        stroke(7, 11, 7, 7),
        Shape::Arc {
            center: point(12, 7),
            radius: 5,
            start_deg: 180,
            end_deg: 360,
            segments: 16,
        },
        stroke(17, 7, 17, 11),
    ]);
    Icon { grid: 24, shapes }
}

/// An open box, used next to the "BETA" badge.
pub fn package() -> (r: Icon)
    ensures
        r.grid == 24,
        r.shapes@ == line_through(
            seq![point(12, 2), point(2, 7), point(12, 12), point(22, 7), point(12, 2)],
        ) + line_through(seq![
            point(2, 17),
            point(12, 22),
            point(22, 17),
        ]) + line_through(seq![point(2, 12), point(12, 17), point(22, 12)]),
        drawn_inside(r),
{
    let mut shapes: Vec<Shape> = Vec::new();
    let top = vec![at(12, 2), at(2, 7), at(12, 12), at(22, 7), at(12, 2)];
    assert(top@ =~= seq![point(12, 2), point(2, 7), point(12, 12), point(22, 7), point(12, 2)]);
    polyline(&mut shapes, top);
    let bottom = vec![at(2, 17), at(12, 22), at(22, 17)];
    assert(bottom@ =~= seq![point(2, 17), point(12, 22), point(22, 17)]);
    polyline(&mut shapes, bottom);
    let middle = vec![at(2, 12), at(12, 17), at(22, 12)];
    assert(middle@ =~= seq![point(2, 12), point(12, 17), point(22, 12)]);
    polyline(&mut shapes, middle);
    assert(shapes@ =~= line_through(
        seq![point(12, 2), point(2, 7), point(12, 12), point(22, 7), point(12, 2)],
    ) + line_through(seq![
        point(2, 17),
        point(12, 22),
        point(22, 17),
    ]) + line_through(seq![point(2, 12), point(12, 17), point(22, 12)]));
    Icon { grid: 24, shapes }
}

/// A circled "i", used for the About button.
pub fn info() -> (r: Icon)
    ensures
        r.grid == 24,
        r.shapes@ == seq![
            Shape::Ring { radius: 4000 },
            Shape::Disc { center: point(0, -1680), radius: 600, least_tenths: 12, ink: Ink::Icon },
            Shape::CenterSegment { from: point(0, -200), to: point(0, 1920) },
        ],
        drawn_inside(r),
{
    let mut shapes: Vec<Shape> = Vec::new();
    shapes.push(Shape::Ring { radius: 4000 });
    shapes.push(
        Shape::Disc { center: at(0, -1680), radius: 600, least_tenths: 12, ink: Ink::Icon },
    );
    shapes.push(Shape::CenterSegment { from: at(0, -200), to: at(0, 1920) });
    assert(shapes@ =~= seq![
        Shape::Ring { radius: 4000 },
        Shape::Disc { center: point(0, -1680), radius: 600, least_tenths: 12, ink: Ink::Icon },
        Shape::CenterSegment { from: point(0, -200), to: point(0, 1920) },
    ]);
    Icon { grid: 24, shapes }
}

/// A crescent moon, the toggle of the light theme: a disc in the background's
/// colour cuts the crescent out of a filled circle.
pub fn moon() -> (r: Icon)
    ensures
        r.grid == 24,
        r.shapes@ == seq![
            Shape::Disc { center: point(0, 0), radius: 3400, least_tenths: 0, ink: Ink::Icon },
            Shape::Disc {
                center: point(1870, -1088),
                radius: 2992,
                least_tenths: 0,
                ink: Ink::Background,
            },
        ],
        drawn_inside(r),
{
    let mut shapes: Vec<Shape> = Vec::new();
    shapes.push(Shape::Disc { center: at(0, 0), radius: 3400, least_tenths: 0, ink: Ink::Icon });
    shapes.push(
        Shape::Disc {
            center: at(1870, -1088),
            radius: 2992,
            least_tenths: 0,
            ink: Ink::Background,
        },
    );
    assert(shapes@ =~= seq![
        Shape::Disc { center: point(0, 0), radius: 3400, least_tenths: 0, ink: Ink::Icon },
        Shape::Disc {
            center: point(1870, -1088),
            radius: 2992,
            least_tenths: 0,
            ink: Ink::Background,
        },
    ]);
    Icon { grid: 24, shapes }
}

/// A sun (circle with rays), the toggle of the dark theme.
pub fn sun() -> (r: Icon)
    ensures
        r.grid == 24,
        r.shapes@ == seq![
            Shape::Ring { radius: 2000 },
            Shape::Rays { count: 8, inner: 2700, outer: 3800 },
        ],
        drawn_inside(r),
{
    let mut shapes: Vec<Shape> = Vec::new();
    shapes.push(Shape::Ring { radius: 2000 });
    shapes.push(Shape::Rays { count: 8, inner: 2700, outer: 3800 });
    assert(shapes@ =~= seq![
        Shape::Ring { radius: 2000 },
        Shape::Rays { count: 8, inner: 2700, outer: 3800 },
    ]);
    Icon { grid: 24, shapes }
}

/// A small downward chevron ("expand").
pub fn chevron_down() -> (r: Icon)
    ensures
        r.grid == 100,
        r.shapes@ == line_through(seq![point(20, 35), point(50, 65), point(80, 35)]),
        drawn_inside(r),
{
    let mut shapes: Vec<Shape> = Vec::new();
    let tip = vec![at(20, 35), at(50, 65), at(80, 35)];
    assert(tip@ =~= seq![point(20, 35), point(50, 65), point(80, 35)]);
    polyline(&mut shapes, tip);
    assert(shapes@ =~= line_through(seq![point(20, 35), point(50, 65), point(80, 35)]));
    Icon { grid: 100, shapes }
}

/// A small rightward chevron ("collapsed").
pub fn chevron_right() -> (r: Icon)
    ensures
        r.grid == 100,
        r.shapes@ == line_through(seq![point(32, 18), point(68, 50), point(32, 82)]),
        drawn_inside(r),
{
    let mut shapes: Vec<Shape> = Vec::new();
    let tip = vec![at(32, 18), at(68, 50), at(32, 82)];
    assert(tip@ =~= seq![point(32, 18), point(68, 50), point(32, 82)]);
    polyline(&mut shapes, tip);
    assert(shapes@ =~= line_through(seq![point(32, 18), point(68, 50), point(32, 82)]));
    Icon { grid: 100, shapes }
}

/// A line through some points goes from each to the next, and through no other: a
/// further point adds one stroke, which begins where the line ended.
pub proof fn lines_go_from_point_to_point(points: Seq<Point>, p: Point)
    ensures
        points.len() <= 1 ==> line_through(points).len() == 0,
        points.len() > 0 ==> line_through(points.push(p)) == line_through(points).push(
            Shape::Segment { from: points.last(), to: p },
        ),
{
    if points.len() > 0 {
        assert(line_through(points.push(p)) =~= line_through(points).push(
            Shape::Segment { from: points.last(), to: p },
        ));
    }
}

/// A stroke begins and ends at the points that it is given.
pub proof fn strokes_join_their_points(x0: i32, y0: i32, x1: i32, y1: i32)
    ensures
        stroke(x0 as int, y0 as int, x1 as int, y1 as int) == (Shape::Segment {
            from: Point { x: x0, y: y0 },
            to: Point { x: x1, y: y1 },
        }),
{
}

} // verus!

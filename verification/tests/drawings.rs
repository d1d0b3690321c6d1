use tor_browser_builder::icons::{
    check, chevron_down, chevron_right, cross, download, folder, info, launch, lock, moon, package,
    sun, Icon, Ink, Point, Shape,
};

fn at(x: i32, y: i32) -> Point {
    Point { x, y }
}

#[test]
fn check_and_cross() {
    let c = check();
    assert_eq!(c.grid, 24);
    assert_eq!(
        c.shapes,
        vec![
            Shape::Segment { from: at(20, 6), to: at(9, 17) },
            Shape::Segment { from: at(9, 17), to: at(4, 12) },
        ]
    );
    assert_eq!(
        cross().shapes,
        vec![
            Shape::Segment { from: at(18, 6), to: at(6, 18) },
            Shape::Segment { from: at(6, 6), to: at(18, 18) },
        ]
    );
}

#[test]
fn download_is_a_tray_with_an_arrow() {
    let d = download();
    assert_eq!(d.shapes.len(), 8);
    assert_eq!(d.shapes[7], Shape::Segment { from: at(12, 15), to: at(12, 3) });
}

fn inside(icon: &Icon) -> bool {
    icon.shapes.iter().all(|s| match s {
        Shape::Segment { from, to } => {
            [from, to].iter().all(|p| {
                0 <= p.x && p.x <= icon.grid && 0 <= p.y && p.y <= icon.grid
            })
        },
        Shape::Arc { center, radius, .. } => {
            center.x - radius >= 0
                && center.x + radius <= icon.grid
                && center.y - radius >= 0
                && center.y + radius <= icon.grid
        },
        Shape::CenterSegment { from, to } => {
            [from, to].iter().all(|p| p.x.abs() <= 5000 && p.y.abs() <= 5000)
        },
        Shape::Ring { radius } => *radius <= 5000,
        Shape::Disc { center, radius, .. } => {
            center.x.abs() + radius <= 5000 && center.y.abs() + radius <= 5000
        },
        Shape::Rays { outer, .. } => *outer <= 5000,
    })
}

#[test]
fn icons_are_drawn_inside_their_square() {
    for icon in [
        download(),
        check(),
        cross(),
        folder(),
        launch(),
        lock(),
        package(),
        info(),
        moon(),
        sun(),
        chevron_down(),
        chevron_right(),
    ] {
        assert!(!icon.shapes.is_empty());
        assert!(inside(&icon));
    }
}

#[test]
fn the_moon_is_cut_out_of_a_disc() {
    let inks: Vec<Ink> = moon()
        .shapes
        .iter()
        .filter_map(|s| match s {
            Shape::Disc { ink, .. } => Some(*ink),
            _ => None,
        })
        .collect();
    assert_eq!(inks, vec![Ink::Icon, Ink::Background]);
}

#[test]
fn the_sun_has_eight_rays() {
    assert!(sun().shapes.iter().any(|s| matches!(s, Shape::Rays { count: 8, .. })));
}

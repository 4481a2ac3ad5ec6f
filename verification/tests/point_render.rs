use simple_terminal_app::commands::{ClearAll, Goto};
use simple_terminal_app::render::Render;
use simple_terminal_app::Point;

#[test]
fn point_new_keeps_coordinates() {
    let p = Point::new(3, 4);
    assert_eq!(p.x, 3);
    assert_eq!(p.y, 4);
}

#[test]
fn point_renders_as_text() {
    assert_eq!(Point::new(3, 4).render(), "3, 4");
}

#[test]
fn point_renders_extreme_coordinates() {
    assert_eq!(Point::new(0, 0).render(), "0, 0");
    assert_eq!(Point::new(65535, 0).render(), "65535, 0");
    assert_eq!(Point::new(10012, 407).render(), "10012, 407");
}

#[test]
fn goto_is_one_based() {
    // zero-based (3, 4) becomes the one-based pair (4, 5); the escape code
    // carries the row (y) first.
    assert_eq!(Goto(Point::new(3, 4)).render(), "\x1b[5;4H");
}

#[test]
fn goto_matches_terminal_driver() {
    assert_eq!(
        Goto(Point::new(3, 4)).render(),
        termion::cursor::Goto(4, 5).to_string()
    );
    assert_eq!(
        Goto(Point::new(0, 0)).render(),
        termion::cursor::Goto(1, 1).to_string()
    );
}

#[test]
fn goto_saturates_at_the_largest_coordinate() {
    assert_eq!(Goto(Point::new(65535, 65534)).render(), "\x1b[65535;65535H");
}

#[test]
fn clear_all_matches_terminal_driver() {
    assert_eq!(ClearAll.render(), "\x1b[2J");
    assert_eq!(ClearAll.render(), termion::clear::All.to_string());
}

#[test]
fn string_renders_as_itself() {
    assert_eq!("abc".to_string().render(), "abc");
}

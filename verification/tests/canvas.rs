use banana_lib::canvas::Canvas;
use banana_lib::geometry::shapes::rect::iter::RectPointIter;
use banana_lib::geometry::shapes::rect::Rect;
use banana_lib::vec2::IVec2;

fn drawn(canvas: &Canvas) -> Vec<String> {
    canvas.lines().iter().map(|line| line.iter().map(|b| char::from(*b)).collect()).collect()
}

#[test]
fn iter() {
    let ret = Rect::from_corners(IVec2::new(0, 0), IVec2::new(3, 3));
    let mut canvas = Canvas::new([6, 6]);
    let mut points = RectPointIter::from(ret);
    while let Some(p) = points.next() {
        canvas.put(p, '*');
    }
    assert_eq!(drawn(&canvas), vec!["***...", "***...", "***...", "......", "......", "......"]);
}

#[test]
fn big() {
    let rect = Rect::from_corners([2, 2], [8, 8]);
    let mut canvas = Canvas::new([10, 10]);

    for p in rect.point_set() {
        canvas.put(p, '*');
    }
    let lines = drawn(&canvas);
    assert_eq!(lines.len(), 10);
    for (y, line) in lines.iter().enumerate() {
        if (2..8).contains(&y) {
            assert_eq!(line, "..******..");
        } else {
            assert_eq!(line, "..........");
        }
    }
}

#[test]
fn print_test() {
    let mut canvas = Canvas::new([10, 5]);
    canvas.put([1, 1], '*');
    canvas.put([2, 2], '*');
    canvas.put([3, 3], '*');
    canvas.put([4, 4], '*');

    assert_eq!(
        drawn(&canvas),
        vec!["..........", ".*........", "..*.......", "...*......", "....*....."]
    );
}

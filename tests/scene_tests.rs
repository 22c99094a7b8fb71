use rtc::scene::Scene;
use rtc::Canvas;
use rtc::Sphere;

#[test]
fn spheres_are_all_equal() {
    let a = Sphere {};
    let b = a;
    assert_eq!(a, b);
}

#[test]
fn first_frame_positions() {
    let s = Scene::new();
    assert_eq!(s, Scene { rect_x: 100, rect_y: 100, circle_x: 400, circle_y: 300 });
}

#[test]
fn frame_colors_follow_layer_order() {
    let s = Scene { rect_x: 10, rect_y: 10, circle_x: 100, circle_y: 100 };
    // background
    assert_eq!(s.color_at(5, 0), (0, 0, 0));
    // diagonal
    assert_eq!(s.color_at(3, 3), (255, 0, 0));
    // rectangle covers the diagonal; its far edges are excluded
    assert_eq!(s.color_at(20, 20), (0, 255, 0));
    assert_eq!(s.color_at(209, 109), (0, 255, 0));
    assert_eq!(s.color_at(210, 50), (0, 0, 0));
    assert_eq!(s.color_at(50, 110), (0, 0, 0));
    assert_eq!(s.color_at(9, 50), (0, 0, 0));
    // disc covers both
    assert_eq!(s.color_at(100, 100), (0, 0, 255));
    assert_eq!(s.color_at(50, 100), (0, 0, 255));
    assert_eq!(s.color_at(150, 100), (0, 255, 0));
    assert_eq!(s.color_at(100, 149), (0, 0, 255));
    assert_eq!(s.color_at(100, 150), (0, 0, 0));
    // the box corner lies outside the round disc, where the diagonal shows
    assert_eq!(s.color_at(140, 140), (255, 0, 0));
    assert_eq!(s.color_at(130, 130), (0, 0, 255));
}

#[test]
fn disc_near_the_origin() {
    let s = Scene { rect_x: 500, rect_y: 500, circle_x: 2, circle_y: 2 };
    assert_eq!(s.color_at(0, 0), (0, 0, 255));
    assert_eq!(s.color_at(51, 2), (0, 0, 255));
    assert_eq!(s.color_at(52, 2), (0, 0, 0));
    assert_eq!(s.color_at(60, 60), (255, 0, 0));
}

#[test]
fn draw_paints_every_pixel() {
    let s = Scene { rect_x: 1, rect_y: 0, circle_x: 100, circle_y: 100 };
    let mut canvas = Canvas::new(3, 2);
    canvas.set_pixel(0, 1, 9, 9, 9);
    s.draw(&mut canvas);
    assert_eq!(canvas.get_pixel(0, 0), Some((255, 0, 0)));
    assert_eq!(canvas.get_pixel(1, 0), Some((0, 255, 0)));
    assert_eq!(canvas.get_pixel(2, 1), Some((0, 255, 0)));
    assert_eq!(canvas.get_pixel(0, 1), Some((0, 0, 0)));
}

#[test]
fn advance_moves_and_wraps() {
    let mut s = Scene::new();
    s.advance(800, 600);
    assert_eq!(s, Scene { rect_x: 102, rect_y: 102, circle_x: 403, circle_y: 303 });
    let mut t = Scene { rect_x: 799, rect_y: 598, circle_x: 798, circle_y: 597 };
    t.advance(800, 600);
    assert_eq!(t, Scene { rect_x: 1, rect_y: 0, circle_x: 1, circle_y: 0 });
}

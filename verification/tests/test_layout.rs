use ratefy::layout::{HorizontalAlign, VerticalAlign};

#[test]
fn test_horizontal_align_variants() {
    let variants = [
        HorizontalAlign::Left,
        HorizontalAlign::Center,
        HorizontalAlign::Right,
        HorizontalAlign::Full,
    ];
    for variant in variants {
        match variant {
            HorizontalAlign::Left => assert!(true),
            HorizontalAlign::Center => assert!(true),
            HorizontalAlign::Right => assert!(true),
            HorizontalAlign::Full => assert!(true),
        }
    }
}

#[test]
fn test_vertical_align_variants() {
    let variants = [
        VerticalAlign::Top,
        VerticalAlign::Middle,
        VerticalAlign::Bottom,
        VerticalAlign::Full,
    ];
    for variant in variants {
        match variant {
            VerticalAlign::Top => assert!(true),
            VerticalAlign::Middle => assert!(true),
            VerticalAlign::Bottom => assert!(true),
            VerticalAlign::Full => assert!(true),
        }
    }
}

fn screen() -> ratefy::layout::Area {
    ratefy::layout::Area { x: 2, y: 1, width: 120, height: 40 }
}

#[test]
fn test_viewport_over_the_whole_screen() {
    let view = ratefy::layout::viewport(screen(), HorizontalAlign::Full, VerticalAlign::Full);
    assert_eq!(view, screen());
}

#[test]
fn test_viewport_at_the_left_top() {
    let view = ratefy::layout::viewport(screen(), HorizontalAlign::Left, VerticalAlign::Top);
    assert_eq!(view, ratefy::layout::Area { x: 2, y: 1, width: 80, height: 20 });
}

#[test]
fn test_viewport_in_the_middle() {
    let view = ratefy::layout::viewport(screen(), HorizontalAlign::Center, VerticalAlign::Middle);
    assert_eq!(view, ratefy::layout::Area { x: 22, y: 11, width: 80, height: 20 });
}

#[test]
fn test_viewport_at_the_right_bottom() {
    let view = ratefy::layout::viewport(screen(), HorizontalAlign::Right, VerticalAlign::Bottom);
    assert_eq!(view, ratefy::layout::Area { x: 42, y: 21, width: 80, height: 20 });
}

#[test]
fn test_viewport_on_a_small_screen() {
    let small = ratefy::layout::Area { x: 0, y: 0, width: 60, height: 10 };
    let view = ratefy::layout::viewport(small, HorizontalAlign::Right, VerticalAlign::Middle);
    assert_eq!(view, ratefy::layout::Area { x: 0, y: 0, width: 80, height: 20 });
    let full = ratefy::layout::viewport(small, HorizontalAlign::Full, VerticalAlign::Bottom);
    assert_eq!(full, ratefy::layout::Area { x: 0, y: 0, width: 60, height: 20 });
}

#[test]
fn test_viewport_odd_slack_is_halved_down() {
    let odd = ratefy::layout::Area { x: 0, y: 0, width: 85, height: 23 };
    let view = ratefy::layout::viewport(odd, HorizontalAlign::Center, VerticalAlign::Middle);
    assert_eq!(view, ratefy::layout::Area { x: 2, y: 1, width: 80, height: 20 });
}

#[test]
fn test_viewport_at_the_last_column() {
    let wide = ratefy::layout::Area { x: 0, y: 0, width: u16::MAX, height: u16::MAX };
    let view = ratefy::layout::viewport(wide, HorizontalAlign::Right, VerticalAlign::Bottom);
    assert_eq!(
        view,
        ratefy::layout::Area { x: u16::MAX - 80, y: u16::MAX - 20, width: 80, height: 20 }
    );
}

#[test]
fn test_popup_area() {
    let popup = ratefy::layout::popup_area(screen());
    assert_eq!(popup, ratefy::layout::Area { x: 7, y: 6, width: 30, height: 10 });
}

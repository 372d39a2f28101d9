use ioracle::classifier::Line;
use ioracle::leds::{
    drop_li_to_default, render, render_li, render_resting, render_yang, render_yin, Colour,
    LEDS_IN_LINE,
};

const MARK: [u8; 4] = [1, 2, 3, 4];

#[test]
fn colour_values() {
    assert_eq!(Colour::Default.rgb(), (51, 0, 180));
    assert_eq!(Colour::Li.rgb(), (230, 4, 211));
    assert_eq!(Colour::Earth.rgb(), (0, 0, 0));
    assert_eq!(Colour::Mountain.rgb(), (14, 255, 232));
}

#[test]
fn yang_row_fills_its_row_only() {
    let mut leds = vec![MARK; 6 * LEDS_IN_LINE];
    render_yang(&mut leds, 2, Colour::Default);
    for (k, px) in leds.iter().enumerate() {
        if (144..288).contains(&k) {
            assert_eq!(*px, [180, 51, 0, 0]);
        } else {
            assert_eq!(*px, MARK);
        }
    }
}

#[test]
fn yin_row_has_a_dark_middle() {
    let mut leds = vec![MARK; 6 * LEDS_IN_LINE];
    render_yin(&mut leds, 1, Colour::Water);
    for k in 0..144 {
        let want = if k > 48 && k < 96 { [0, 0, 0, 0] } else { [255, 38, 2, 0] };
        assert_eq!(leds[k], want, "pixel {}", k);
    }
    assert_eq!(leds[144], MARK);
}

#[test]
fn render_picks_the_shape() {
    let mut a = vec![MARK; 6 * LEDS_IN_LINE];
    let mut b = a.clone();
    render(&mut a, Line::Yin, 6, Colour::Sun);
    render_yin(&mut b, 6, Colour::Sun);
    assert_eq!(a, b);
    render(&mut a, Line::Yang, 6, Colour::Sun);
    render_yang(&mut b, 6, Colour::Sun);
    assert_eq!(a, b);
    assert_eq!(a[5 * 144 + 60], [0, 255, 109, 0]);
}

#[test]
fn resting_frame() {
    let mut yao = vec![MARK; 10];
    let mut li = vec![MARK; 5];
    render_resting(&mut yao, &mut li);
    assert!(yao.iter().all(|px| *px == [0, 0, 0, 0]));
    assert!(li.iter().all(|px| *px == [211, 4, 230, 0]));
    let mut li2 = vec![MARK; 3];
    drop_li_to_default(&mut li2);
    assert_eq!(li2, vec![[211, 4, 230, 0]; 3]);
}

#[test]
fn li_flicker_stays_in_range_and_varies() {
    let mut li = vec![MARK; 3 * LEDS_IN_LINE];
    render_li(&mut li);
    for px in &li {
        assert!(px[0] >= 54 && px[0] < 200);
        assert!(px[1] < px[0] / 4);
        assert_eq!(px[2], 0);
        assert_eq!(px[3], 0);
    }
    assert!(li.iter().any(|px| px[0] != li[0][0]));
}

use double_pendulum::color::{cycle_colors, Color, Phase, CYCLE_LEN, HIGH, LOW, PHASE_LEN};

fn rgb(red: u8, green: u8, blue: u8) -> Color {
    Color { red, green, blue }
}

#[test]
fn start_is_pure_red() {
    assert_eq!(Color::start(), rgb(255, 5, 5));
    assert_eq!((LOW, HIGH), (5, 255));
}

#[test]
fn first_step_raises_green() {
    assert_eq!(Color::start().step(), rgb(255, 6, 5));
}

#[test]
fn corners_take_the_leaving_phase() {
    assert_eq!(rgb(255, 5, 5).phase(), Phase::RedToYellow);
    assert_eq!(rgb(255, 255, 5).phase(), Phase::YellowToGreen);
    assert_eq!(rgb(5, 255, 5).phase(), Phase::GreenToCyan);
    assert_eq!(rgb(5, 255, 255).phase(), Phase::CyanToBlue);
    assert_eq!(rgb(5, 5, 255).phase(), Phase::BlueToMagenta);
    assert_eq!(rgb(255, 5, 255).phase(), Phase::MagentaToRed);
}

#[test]
fn each_phase_moves_one_channel() {
    assert_eq!(rgb(255, 100, 5).step(), rgb(255, 101, 5));
    assert_eq!(rgb(255, 255, 5).step(), rgb(254, 255, 5));
    assert_eq!(rgb(6, 255, 5).step(), rgb(5, 255, 5));
    assert_eq!(rgb(5, 255, 5).step(), rgb(5, 255, 6));
    assert_eq!(rgb(5, 255, 255).step(), rgb(5, 254, 255));
    assert_eq!(rgb(5, 5, 255).step(), rgb(6, 5, 255));
    assert_eq!(rgb(255, 5, 255).step(), rgb(255, 5, 254));
    assert_eq!(rgb(255, 5, 6).step(), rgb(255, 5, 5));
}

#[test]
fn whole_cycle_returns_to_start() {
    assert_eq!(CYCLE_LEN, 6 * PHASE_LEN);
    assert_eq!(Color::start().advance(1500), rgb(255, 5, 5));
    assert_ne!(Color::start().advance(1499), rgb(255, 5, 5));
}

#[test]
fn advance_reaches_each_corner() {
    let s = Color::start();
    assert_eq!(s.advance(0), rgb(255, 5, 5));
    assert_eq!(s.advance(250), rgb(255, 255, 5));
    assert_eq!(s.advance(500), rgb(5, 255, 5));
    assert_eq!(s.advance(750), rgb(5, 255, 255));
    assert_eq!(s.advance(1000), rgb(5, 5, 255));
    assert_eq!(s.advance(1250), rgb(255, 5, 255));
    assert_eq!(s.advance(1375), rgb(255, 5, 130));
}

#[test]
fn colors_by_index_start_at_red() {
    let cs = cycle_colors(3);
    assert_eq!(cs, vec![rgb(255, 5, 5), rgb(255, 6, 5), rgb(255, 7, 5)]);
}

#[test]
fn colors_repeat_past_the_cycle() {
    let cs = cycle_colors(3002);
    assert_eq!(cs.len(), 3002);
    for n in 0..1502 {
        assert_eq!(cs[n], cs[n + 1500]);
    }
    assert_eq!(cs[1500], rgb(255, 5, 5));
    assert_eq!(cs[1501], rgb(255, 6, 5));
    assert_eq!(cs[3000], rgb(255, 5, 5));
}

#[test]
fn colors_stay_within_channel_bounds() {
    let cs = cycle_colors(1500);
    for c in &cs {
        for v in [c.red, c.green, c.blue] {
            assert!((5..=255).contains(&v));
        }
    }
    for (i, c) in cs.iter().enumerate() {
        assert_eq!(*c, Color::start().advance(i as u64));
    }
}

#[test]
fn no_colors_for_empty_population() {
    assert!(cycle_colors(0).is_empty());
}

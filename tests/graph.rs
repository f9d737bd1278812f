use bar_minigame::graph::{width_bonus, Bar, BarGraph, BarSpec, GraphError};

fn specs(n: usize) -> Vec<BarSpec> {
    (0..n)
        .map(|i| BarSpec { name: format!("b{}", i), height: (i as i64) * 250 })
        .collect()
}

fn one_bar() -> Bar {
    let mut g = BarGraph::new(0, 50_000);
    g.setup(0, 0, 1_000_000, &specs(1)).unwrap();
    g.bars.remove(0)
}

#[test]
fn setup_makes_one_bar_per_spec_at_distinct_offsets() {
    for n in 1..=25usize {
        let mut g = BarGraph::new(10_000, 50_000);
        assert_eq!(g.setup(100_000, 200_000, 1_000_000, &specs(n)), Ok(()));
        assert_eq!(g.bars.len(), n);
        let step = 1_000_000 / n as i64;
        for (i, b) in g.bars.iter().enumerate() {
            let k = i as i64;
            assert_eq!(b.index, i as u32);
            assert_eq!(b.name, format!("b{}", i));
            assert_eq!(b.x, 100_000 - 400_000 + 10_000 + step * k + 50_000 * k);
            assert_eq!(b.y, 200_000 - 14_000);
            assert_eq!(b.scale_y, 1000 + k * 250);
            assert_eq!(b.shift_y, -25 * k * 250);
            for other in &g.bars[..i] {
                assert_ne!(other.x, b.x);
            }
        }
    }
}

#[test]
fn setup_five_bars_exact_positions() {
    let mut g = BarGraph::new(0, 50_000);
    g.setup(0, 0, 1_000_000, &specs(5)).unwrap();
    let xs: Vec<i64> = g.bars.iter().map(|b| b.x).collect();
    assert_eq!(xs, vec![-400_000, -150_000, 100_000, 350_000, 600_000]);
}

#[test]
fn setup_twenty_six_bars_is_refused() {
    let mut g = BarGraph::new(0, 50_000);
    assert_eq!(g.setup(0, 0, 1_000_000, &specs(26)), Err(GraphError::TooManyBars));
    assert_eq!(g.bars.len(), 0);
}

#[test]
fn setup_with_no_specs_makes_no_bars() {
    let mut g = BarGraph::new(0, 50_000);
    assert_eq!(g.setup(0, 0, 1_000_000, &specs(0)), Ok(()));
    assert!(g.bars.is_empty());
}

#[test]
fn width_bonus_for_five_and_fifteen() {
    assert_eq!(width_bonus(5), (2, 1));
    assert_eq!(width_bonus(15), (2, 5));
    let (n, d) = width_bonus(15);
    assert!((n as f64 / d as f64 - 0.4).abs() < 1e-12);
    let (n, d) = width_bonus(5);
    assert_eq!(n as f64 / d as f64, 2.0);
    assert_eq!(width_bonus(10), (2, 1));
    assert_eq!(width_bonus(25), (2, 15));
}

#[test]
fn bars_carry_width_bonus() {
    let mut g = BarGraph::new(0, 0);
    g.setup(0, 0, 1_000_000, &specs(15)).unwrap();
    assert!(g.bars.iter().all(|b| (b.widen_num, b.widen_den) == (2, 5)));
}

#[test]
fn increase_then_decrease_restores_bar() {
    let mut b = one_bar();
    let (s, t) = (b.scale_y, b.shift_y);
    b.increase_height(250);
    assert_eq!((b.scale_y, b.shift_y), (s + 250, t - 6250));
    b.decrease_height(250);
    assert_eq!((b.scale_y, b.shift_y), (s, t));
}

#[test]
fn set_height_moves_scale_and_shift() {
    let mut b = one_bar();
    b.set_height(3000);
    assert_eq!(b.height(), 3000);
    assert_eq!((b.scale_y, b.shift_y), (4000, -75_000));
    b.set_height(-500);
    assert_eq!((b.scale_y, b.shift_y), (500, 12_500));
}

#[test]
fn set_bar_height_updates_one_bar() {
    let mut g = BarGraph::new(0, 50_000);
    g.setup(0, 0, 1_000_000, &specs(3)).unwrap();
    assert_eq!(g.set_bar_height(1, 4), Ok(()));
    assert_eq!((g.bars[1].scale_y, g.bars[1].shift_y), (5000, -100_000));
    assert_eq!(g.bars[0].scale_y, 1000);
    assert_eq!(g.bars[2].scale_y, 1500);
}

#[test]
fn set_bar_height_out_of_range() {
    let mut g = BarGraph::new(0, 50_000);
    g.setup(0, 0, 1_000_000, &specs(3)).unwrap();
    assert_eq!(g.set_bar_height(3, 4), Err(GraphError::NoSuchBar));
    assert_eq!(g.bars[2].scale_y, 1500);
}

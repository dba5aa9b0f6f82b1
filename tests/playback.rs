use ride::planner::{plan, Route, Waypoint};
use ride::position::Position;
use ride::travel::{progress_permille, step_cadence_ms, Travel};

fn pos(lon_e6: i64, lat_e6: i64) -> Position {
    Position::new(lon_e6, lat_e6).unwrap()
}

#[test]
fn first_move_adds_no_distance() {
    let mut t = Travel::new(3);
    t.move_to(pos(0, 0), 999);
    assert_eq!(t.traveled_mm, 0);
    assert_eq!(t.current_step, 1);
    t.move_to(pos(1, 0), 111);
    assert_eq!(t.traveled_mm, 111);
    assert_eq!(t.current_step, 2);
    assert_eq!(t.previous_point, Some(pos(1, 0)));
    assert_eq!(t.total_steps, 3);
    assert_eq!(Travel::default(), Travel::new(0));
}

#[test]
fn progress_is_reported_before_the_step() {
    let mut t = Travel::new(2);
    let w = |lon| Waypoint { id: "d".to_string(), pos: pos(lon, 0) };
    let a = t.handle(w(0), 0);
    assert_eq!((a.step, a.traveled_mm, a.permille), (1, 0, 0));
    let b = t.handle(w(5), 700);
    assert_eq!((b.step, b.traveled_mm, b.permille), (2, 700, 500));
    let c = t.handle(w(10), 300);
    assert_eq!((c.step, c.traveled_mm, c.permille), (3, 1000, 1000));
    assert_eq!(c.event.x, "0.000010");
    assert_eq!(c.event.y, "0.000000");
    assert_eq!(c.event.id, "d");
}

#[test]
fn progress_never_goes_back() {
    let total = 180;
    let mut last = 0;
    for k in 0..=total {
        let p = progress_permille(k, total);
        assert!(p >= last);
        if k < total {
            assert!(p < 1000);
        }
        last = p;
    }
    assert_eq!(progress_permille(90, 180), 500);
    assert_eq!(progress_permille(1, 3), 333);
    assert_eq!(last, 1000);
}

#[test]
fn cadence_is_interval_over_factor() {
    assert_eq!(step_cadence_ms(2, 1), 2000);
    assert_eq!(step_cadence_ms(2, 3), 666);
    assert_eq!(step_cadence_ms(0, 5), 0);
}

fn play(t: &mut Travel, w: Waypoint, leg_mm: u64) {
    t.handle(w, leg_mm);
}

#[test]
fn two_routes_played_together_stay_apart() {
    let ra = Route::new("a".to_string(), vec![pos(0, 0), pos(9_000, 0)], vec![1_000_000]).unwrap();
    let rb = Route::new("b".to_string(), vec![pos(0, 0), pos(0, 27_000)], vec![3_000_000]).unwrap();
    let wa = plan(&ra, 10_000, 2).unwrap();
    let wb = plan(&rb, 10_000, 2).unwrap();
    assert_eq!((wa.len(), wb.len()), (181, 541));
    let mut ta = Travel::new(wa.len() as u64 - 1);
    let mut tb = Travel::new(wb.len() as u64 - 1);
    let (na, nb) = (wa.len(), wb.len());
    let mut ia = wa.into_iter();
    let mut ib = wb.into_iter();
    let mut first_a = true;
    let mut first_b = true;
    loop {
        let mut moved = false;
        if let Some(w) = ia.next() {
            play(&mut ta, w, if first_a { 0 } else { 5_555 });
            first_a = false;
            moved = true;
        }
        if let Some(w) = ib.next() {
            play(&mut tb, w, if first_b { 0 } else { 5_550 });
            first_b = false;
            moved = true;
        }
        if !moved {
            break;
        }
    }
    assert_eq!(ta.current_step as usize, na);
    assert_eq!(tb.current_step as usize, nb);
    assert_eq!(ta.traveled_mm, 5_555 * 180);
    assert_eq!(tb.traveled_mm, 5_550 * 540);
    assert_eq!(ta.previous_point, Some(pos(9_000, 0)));
    assert_eq!(tb.previous_point, Some(pos(0, 27_000)));
}

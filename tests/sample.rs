use guarded_cell::blocking::BlockingGuardedCell;
use guarded_cell::record::Pair;
use guarded_cell::sample::{
    peek_blocking, update_blocking, LockSample, ShutdownReport, MTX_INIT_A, MTX_INIT_B,
    SPIN_INIT_A, SPIN_INIT_B,
};
use guarded_cell::spin::SpinGuardedCell;

#[test]
fn end_to_end_blocking_then_spin() {
    let mut m = BlockingGuardedCell::new(Pair::new(5, 10));
    let mut g = m.acquire();
    let mut p = *g.value();
    p.a += 10;
    p.b += 20;
    g.set(p);
    m.release(g);
    let g = m.acquire();
    assert_eq!(*g.value(), Pair::new(15, 30));
    m.release(g);

    let mut s = SpinGuardedCell::new(Pair::new(3, 6));
    let mut g = s.acquire();
    let mut p = *g.value();
    p.a += 9;
    p.b += 14;
    g.set(p);
    s.release(g);
    assert_eq!(s.into_inner(), Pair::new(12, 20));
}

#[test]
fn start_uses_initial_values() {
    assert_eq!((MTX_INIT_A, MTX_INIT_B), (5, 10));
    assert_eq!((SPIN_INIT_A, SPIN_INIT_B), (3, 6));
    let mut s = LockSample::start();
    let r = s.report();
    assert_eq!(
        r,
        ShutdownReport { mtx: Some(Pair::new(5, 10)), spin: Some(Pair::new(3, 6)) }
    );
}

#[test]
fn operations_update_one_cell_each() {
    let mut s = LockSample::start();
    s.example_mtx_operation();
    let r = s.report();
    assert_eq!(r.mtx, Some(Pair::new(15, 30)));
    assert_eq!(r.spin, Some(Pair::new(3, 6)));
    s.example_spin_operation();
    let r = s.report();
    assert_eq!(r.mtx, Some(Pair::new(15, 30)));
    assert_eq!(r.spin, Some(Pair::new(12, 20)));
}

#[test]
fn shutdown_reports_updated_records() {
    let s = LockSample::start();
    let r = s.shutdown();
    assert_eq!(r.mtx, Some(Pair::new(15, 30)));
    assert_eq!(r.spin, Some(Pair::new(12, 20)));
}

#[test]
fn shutdown_after_operations() {
    let mut s = LockSample::start();
    s.example_mtx_operation();
    s.example_spin_operation();
    let r = s.shutdown();
    assert_eq!(r.mtx, Some(Pair::new(25, 50)));
    assert_eq!(r.spin, Some(Pair::new(21, 34)));
}

#[test]
fn peek_on_held_cell_gives_nothing_and_keeps_it_held() {
    let mut c = BlockingGuardedCell::new(Pair::new(1, 1));
    let g = c.acquire();
    assert_eq!(peek_blocking(&mut c), None);
    assert!(c.is_held());
    c.release(g);
    update_blocking(&mut c, 2, 3);
    assert_eq!(peek_blocking(&mut c), Some(Pair::new(3, 4)));
}

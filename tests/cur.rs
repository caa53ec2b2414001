use gur::cur::{Cur, CurBuilder};
use gur::metrics::Metrics;

#[test]
fn cur_ok_add() {
    let mut s: Cur<i32> = CurBuilder::default().build(0);

    let t1 = s.try_edit(|n| Ok::<i32, Box<dyn std::error::Error>>(n + 1)).unwrap();
    assert_eq!(1, *t1);
}

#[test]
fn cur_err_add() {
    let err_add = |n: i32| -> Result<i32, Box<dyn std::error::Error>> {
        "NaN".parse::<i32>().map(|p| p + n).map_err(|e| e.into())
    };
    let add_one = |n: i32| n + 1;

    let mut s: Cur<i32> = CurBuilder::default().build(0);

    assert_eq!(0, *s.get());

    let t1 = s.try_edit(err_add);
    assert!(t1.is_err());
    assert_eq!(0, *s.get());

    let t1 = s.edit(add_one);
    assert_eq!(1, *t1);
    let t2 = s.edit(add_one);
    assert_eq!(2, *t2);
    let t3 = s.try_edit(err_add);
    assert!(t3.is_err());
    assert_eq!(2, *s.get());
}

#[test]
fn cur_deref() {
    let mut s: Cur<i32> = CurBuilder::default().build(0);

    s.edit(|n| n + 1);
    assert_eq!(1, *s.get());
    s.edit(|n| n * 3);
    assert_eq!(3, *s.get());
    s.edit(|n| n + 5);
    assert_eq!(8, *s.get());
    s.edit(|n| n * 7);
    assert_eq!(56, *s.get());
}

#[test]
fn cur_undo() {
    let mut s: Cur<i32> = CurBuilder::default().build(0);

    let t0 = *s.get();
    assert_eq!(0, t0);
    assert!(s.undo().is_none());

    let t1 = *s.edit(|n| n + 1);
    assert_eq!(1, *s.get());
    let t2 = *s.edit(|n| n * 3);
    assert_eq!(3, *s.get());
    let t3 = *s.edit(|n| n + 5);
    assert_eq!(8, *s.get());
    let t4 = *s.edit(|n| n * 7);
    assert_eq!(56, *s.get());

    let u3 = *s.undo().unwrap();
    assert_eq!(8, *s.get());
    let u2 = *s.undo().unwrap();
    assert_eq!(3, *s.get());
    let u1 = *s.undo().unwrap();
    assert_eq!(1, *s.get());
    let u0 = *s.undo().unwrap();
    assert_eq!(0, *s.get());
    assert!(s.undo().is_none());

    assert_eq!(t0, u0);
    assert_eq!(t1, u1);
    assert_eq!(t2, u2);
    assert_eq!(t3, u3);
    assert_eq!(t4, 56);
}

#[test]
fn cur_undo_redo_many() {
    let n = 100000;

    let mut s: Cur<i32, fn(i32) -> i32, fn(i32) -> Option<i32>, _> = CurBuilder::default()
        // This trigger sometimes inserts snapshots to speed up undo()/redo().
        .snapshot_trigger(|metrics: &Metrics| 10 < metrics.distance_from_snapshot())
        .build(0);

    for i in 0..n {
        s.edit(|n| n + 1);
        assert_eq!(i + 1, *s.get());
    }

    for i in (0..n).rev() {
        assert_eq!(i, *s.undo().unwrap());
    }
    assert!(s.undo().is_none());

    for i in 0..n {
        assert_eq!(i + 1, *s.redo().unwrap());
    }
    assert!(s.redo().is_none());
}

#[test]
fn cur_redo() {
    let mut s: Cur<i32> = CurBuilder::default().build(0);

    let t0 = *s.get();
    assert_eq!(0, t0);
    assert!(s.undo().is_none());
    assert!(s.redo().is_none());

    let t1 = *s.edit(|n| n + 1);
    assert_eq!(1, *s.get());
    let t2 = *s.edit(|n| n * 3);
    assert_eq!(3, *s.get());
    let t3 = *s.edit(|n| n + 5);
    assert_eq!(8, *s.get());
    let t4 = *s.edit(|n| n * 7);
    assert_eq!(56, *s.get());

    let _ = s.undo().unwrap();
    let _ = s.undo().unwrap();
    let _ = s.undo().unwrap();
    let _ = s.undo().unwrap();
    assert!(s.undo().is_none());

    let r1 = *s.redo().unwrap();
    assert_eq!(1, *s.get());
    let r2 = *s.redo().unwrap();
    assert_eq!(3, *s.get());
    let r3 = *s.redo().unwrap();
    assert_eq!(8, *s.get());
    let r4 = *s.redo().unwrap();
    assert_eq!(56, *s.get());
    assert!(s.redo().is_none());

    assert_eq!(t1, r1);
    assert_eq!(t2, r2);
    assert_eq!(t3, r3);
    assert_eq!(t4, r4);
}

#[test]
fn cur_edit_undo_edit() {
    let mut s: Cur<i32> = CurBuilder::default().build(0);

    let t0 = *s.get();
    assert_eq!(0, t0);

    let t1 = s.edit(|n| n + 1);
    assert_eq!(1, *t1);
    let t2 = s.edit(|n| n * 3);
    assert_eq!(3, *t2);

    let u1 = s.undo().unwrap();
    assert_eq!(1, *u1);
    let t2d = s.edit(|n| n + 4);
    assert_eq!(5, *t2d);
}

#[test]
fn cur_edit_undo_edit_edit_undo_redo() {
    let mut s: Cur<i32> = CurBuilder::default().build(0);

    let t0 = *s.get();
    assert_eq!(0, t0);

    let t1 = s.edit(|n| n + 1);
    assert_eq!(1, *t1);
    let t2 = s.edit(|n| n * 3);
    assert_eq!(3, *t2);

    let u1 = s.undo().unwrap();
    assert_eq!(1, *u1);
    let t2d = s.edit(|n| n + 4);
    assert_eq!(5, *t2d);
    let t3d = s.edit(|n| n * 5);
    assert_eq!(25, *t3d);

    let u2d = s.undo().unwrap();
    assert_eq!(5, *u2d);

    let r3d = s.redo().unwrap();
    assert_eq!(25, *r3d);
}

#[test]
fn cur_jump() {
    let mut s: Cur<i32> = CurBuilder::default().build(0);

    let t0 = *s.get(); // 0
    let t1 = *s.edit(|n| n + 1); // 1
    let t2 = *s.edit(|n| n * 3); // 3
    let t3 = *s.edit(|n| n + 5); // 8
    let t4 = *s.edit(|n| n * 7); // 56
    let t5 = *s.edit(|n| n + 9); // 65

    // undo by jump()
    let j4 = s.jump(-1).unwrap();
    assert_eq!(t4, *j4);
    assert_eq!(t4, *s.get());
    let j2 = s.jump(-2).unwrap();
    assert_eq!(t2, *j2);
    assert_eq!(t2, *s.get());
    assert!(s.jump(-3).is_none());
    let j0 = s.jump(-2).unwrap();
    assert_eq!(t0, *j0);
    assert_eq!(t0, *s.get());

    // redo by jump()
    let j1 = s.jump(1).unwrap();
    assert_eq!(t1, *j1);
    assert_eq!(t1, *s.get());
    let j3 = s.jump(2).unwrap();
    assert_eq!(t3, *j3);
    assert_eq!(t3, *s.get());
    assert!(s.jump(3).is_none());
    let j5 = s.jump(2).unwrap();
    assert_eq!(t5, *j5);
    assert_eq!(t5, *s.get());
}

#[test]
fn cur_undo_multi() {
    let mut s: Cur<i32> = CurBuilder::default().build(0);

    let t0 = *s.get(); // 0
    let _t1 = *s.edit(|n| n + 1); // 1
    let t2 = *s.edit(|n| n * 3); // 3
    let _t3 = *s.edit(|n| n + 5); // 8
    let t4 = *s.edit(|n| n * 7); // 56
    let _t5 = *s.edit(|n| n + 9); // 65

    let u4 = s.undo_multi(1).unwrap();
    assert_eq!(t4, *u4);
    assert_eq!(t4, *s.get());
    let u2 = s.undo_multi(2).unwrap();
    assert_eq!(t2, *u2);
    assert_eq!(t2, *s.get());
    assert!(s.undo_multi(3).is_none());
    let u0 = s.undo_multi(2).unwrap();
    assert_eq!(t0, *u0);
    assert_eq!(t0, *s.get());
}

#[test]
fn cur_redo_multi() {
    let mut s: Cur<i32> = CurBuilder::default().build(0);

    let t0 = *s.get(); // 0
    let t1 = *s.edit(|n| n + 1); // 1
    let _t2 = *s.edit(|n| n * 3); // 3
    let t3 = *s.edit(|n| n + 5); // 8
    let _t4 = *s.edit(|n| n * 7); // 56
    let t5 = *s.edit(|n| n + 9); // 65

    let u0 = s.undo_multi(5).unwrap();
    assert_eq!(t0, *u0);
    assert_eq!(t0, *s.get());

    let r1 = s.redo_multi(1).unwrap();
    assert_eq!(t1, *r1);
    assert_eq!(t1, *s.get());
    let r3 = s.redo_multi(2).unwrap();
    assert_eq!(t3, *r3);
    assert_eq!(t3, *s.get());
    assert!(s.redo_multi(3).is_none());
    let r5 = s.redo_multi(2).unwrap();
    assert_eq!(t5, *r5);
    assert_eq!(t5, *s.get());
}

#[test]
fn cur_edit_if() {
    let mut s: Cur<i32> = CurBuilder::default().build(0);

    let t0 = *s.get();
    assert_eq!(0, t0);

    let t_some = s.edit_if(|n| Some(n + 1));
    assert_eq!(1, *t_some.unwrap());
    assert_eq!(1, *s.get());
    let t_none = s.edit_if(|_| None);
    assert!(t_none.is_none());
    assert_eq!(1, *s.get());
}

#[test]
fn cur_into_inner() {
    let mut s: Cur<i32> = CurBuilder::default().build(0);

    let t0 = *s.get();
    assert_eq!(0, t0);

    s.edit_if(|n| Some(n + 1)).unwrap();
    assert_eq!(1, *s.get());

    assert_eq!(1, s.into_inner());
}

#[test]
fn cur_undoable_count() {
    let mut s: Cur<i32> = CurBuilder::default().build(0);

    let _t0 = *s.get(); // 0
    assert_eq!(s.undoable_count(), 0);
    let _t1 = *s.edit(|n| n + 1); // 1
    assert_eq!(s.undoable_count(), 1);
    let _t2 = *s.edit(|n| n * 3); // 3
    assert_eq!(s.undoable_count(), 2);
    let _t3 = *s.edit(|n| n + 5); // 8
    assert_eq!(s.undoable_count(), 3);
    let _t4 = *s.edit(|n| n * 7); // 56
    assert_eq!(s.undoable_count(), 4);
    let _t5 = *s.edit(|n| n + 9); // 65
    assert_eq!(s.undoable_count(), 5);

    let _u4 = s.undo().unwrap();
    assert_eq!(s.undoable_count(), 4);
    let _u1 = s.undo_multi(3).unwrap();
    assert_eq!(s.undoable_count(), 1);
    let _u0 = s.undo().unwrap();
    assert_eq!(s.undoable_count(), 0);
    let _u0 = s.undo();
    assert_eq!(s.undoable_count(), 0);

    let _r1 = s.redo().unwrap();
    assert_eq!(s.undoable_count(), 1);
    let _r3 = s.redo_multi(2).unwrap();
    assert_eq!(s.undoable_count(), 3);
    let t6 = *s.edit(|n| n + 11); // 19
    assert_eq!(t6, 19);
    assert_eq!(s.undoable_count(), 4);
}

#[test]
fn cur_redoable_count() {
    let mut s: Cur<i32> = CurBuilder::default().build(0);

    let _t0 = *s.get(); // 0
    assert_eq!(s.redoable_count(), 0);
    let _t1 = *s.edit(|n| n + 1); // 1
    assert_eq!(s.redoable_count(), 0);
    let _t2 = *s.edit(|n| n * 3); // 3
    assert_eq!(s.redoable_count(), 0);
    let _t3 = *s.edit(|n| n + 5); // 8
    assert_eq!(s.redoable_count(), 0);
    let _t4 = *s.edit(|n| n * 7); // 56
    assert_eq!(s.redoable_count(), 0);
    let _t5 = *s.edit(|n| n + 9); // 65
    assert_eq!(s.redoable_count(), 0);

    let _u4 = s.undo().unwrap();
    assert_eq!(s.redoable_count(), 1);
    let _u1 = s.undo_multi(3).unwrap();
    assert_eq!(s.redoable_count(), 4);
    let _u0 = s.undo().unwrap();
    assert_eq!(s.redoable_count(), 5);
    let _u0 = s.undo();
    assert_eq!(s.redoable_count(), 5);

    let _r1 = s.redo().unwrap();
    assert_eq!(s.redoable_count(), 4);
    let _r3 = s.redo_multi(2).unwrap();
    assert_eq!(s.redoable_count(), 2);
    let t6 = *s.edit(|n| n + 11); // 19
    assert_eq!(t6, 19);
    assert_eq!(s.redoable_count(), 0);
}

#[test]
fn cur_history_limit() {
    let mut s: Cur<i32> = CurBuilder::default().capacity(3).build(0);

    let _t0 = *s.get(); // 0
    assert_eq!(s.undoable_count(), 0);
    assert_eq!(s.redoable_count(), 0);
    let _t1 = *s.edit(|n| n + 1); // 1
    assert_eq!(s.undoable_count(), 1);
    assert_eq!(s.redoable_count(), 0);
    let _t2 = *s.edit(|n| n * 3); // 3
    assert_eq!(s.undoable_count(), 2);
    assert_eq!(s.redoable_count(), 0);
    let _t3 = *s.edit(|n| n + 5); // 8
    assert_eq!(s.undoable_count(), 2);
    assert_eq!(s.redoable_count(), 0);
    let _t4 = *s.edit(|n| n * 7); // 56
    assert_eq!(s.undoable_count(), 2);
    assert_eq!(s.redoable_count(), 0);
    let _t5 = *s.edit(|n| n + 9); // 65
    assert_eq!(s.undoable_count(), 2);
    assert_eq!(s.redoable_count(), 0);

    let _u4 = s.undo().unwrap();
    assert_eq!(s.undoable_count(), 1);
    assert_eq!(s.redoable_count(), 1);
    let _u3 = s.undo().unwrap();
    assert_eq!(s.undoable_count(), 0);
    assert_eq!(s.redoable_count(), 2);

    assert!(s.undo().is_none());

    let _r4 = s.redo().unwrap();
    assert_eq!(s.undoable_count(), 1);
    assert_eq!(s.redoable_count(), 1);

    let t6 = *s.edit(|n| n + 11); // 67
    assert_eq!(t6, 67);
    assert_eq!(s.undoable_count(), 2);
    assert_eq!(s.redoable_count(), 0);

    let t7 = *s.edit(|n| n + 13); // 80
    assert_eq!(t7, 80);
    assert_eq!(s.undoable_count(), 2);
    assert_eq!(s.redoable_count(), 0);
}

#[test]
fn cur_capacity() {
    let s: Cur<i32> = CurBuilder::default().build(0);
    assert!(s.capacity().is_none());
    let s: Cur<i32> = CurBuilder::default().capacity(0).build(0);
    assert!(s.capacity().is_none());

    let s: Cur<i32> = CurBuilder::default().capacity(3).build(0);
    assert_eq!(s.capacity().unwrap(), 3);
}

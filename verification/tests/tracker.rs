use twin_mice::track::{apply_move, apply_moves, resolve_abs_m_move, resolve_rel_m_move};
use twin_mice::{Ax, Lr, MicePos, MouseMove, MouseMoveData, MousePos, MouseSpace, MouseSpaces};

fn square(low: i32, high: i32) -> MouseSpace {
    MouseSpace::new(low, high, low, high).unwrap()
}

fn both(low: i32, high: i32) -> MouseSpaces {
    MouseSpaces { l: square(low, high), r: square(low, high) }
}

fn at(lx: i32, ly: i32, rx: i32, ry: i32) -> MicePos {
    MicePos { l: MousePos { x: lx, y: ly }, r: MousePos { x: rx, y: ry } }
}

fn data(lr: Lr, ax: Ax, v: i32) -> MouseMoveData {
    MouseMoveData { lr, ax, v }
}

#[test]
fn relative_move_is_clamped_below_the_right_edge() {
    let spaces = both(100, 500);
    let mut pos = at(100, 100, 100, 100);
    resolve_rel_m_move(&data(Lr::Left, Ax::X, 1000), &mut pos, &spaces);
    assert_eq!(pos, at(499, 100, 100, 100));
}

#[test]
fn relative_move_is_clamped_at_the_left_edge() {
    let spaces = both(100, 500);
    let mut pos = at(120, 100, 100, 100);
    resolve_rel_m_move(&data(Lr::Left, Ax::X, -1000), &mut pos, &spaces);
    assert_eq!(pos.l.x, 100);
}

#[test]
fn relative_move_on_y_uses_top_and_bottom() {
    let spaces = MouseSpaces {
        l: MouseSpace::new(10, 20, 100, 500).unwrap(),
        r: MouseSpace::new(10, 20, 100, 500).unwrap(),
    };
    let mut pos = at(100, 10, 100, 10);
    resolve_rel_m_move(&data(Lr::Right, Ax::Y, 5), &mut pos, &spaces);
    assert_eq!(pos, at(100, 10, 100, 15));
    resolve_rel_m_move(&data(Lr::Right, Ax::Y, 5), &mut pos, &spaces);
    assert_eq!(pos, at(100, 10, 100, 19));
    resolve_rel_m_move(&data(Lr::Right, Ax::Y, -50), &mut pos, &spaces);
    assert_eq!(pos, at(100, 10, 100, 10));
}

#[test]
fn absolute_move_overwrites_and_clamps_to_the_low_edge() {
    let spaces = both(100, 500);
    for start in [100, 250, 499] {
        let mut pos = at(start, 100, 100, 100);
        resolve_abs_m_move(&data(Lr::Left, Ax::X, 50), &mut pos, &spaces);
        assert_eq!(pos.l.x, 100);
    }
}

#[test]
fn absolute_move_inside_the_rectangle_is_taken_as_it_is() {
    let spaces = both(100, 500);
    let mut pos = at(100, 100, 100, 100);
    resolve_abs_m_move(&data(Lr::Right, Ax::Y, 321), &mut pos, &spaces);
    assert_eq!(pos, at(100, 100, 100, 321));
    resolve_abs_m_move(&data(Lr::Right, Ax::Y, 500), &mut pos, &spaces);
    assert_eq!(pos, at(100, 100, 100, 499));
}

#[test]
fn relative_moves_accumulate() {
    let spaces = both(100, 500);
    let mut pos = at(200, 100, 100, 100);
    resolve_rel_m_move(&data(Lr::Left, Ax::X, 10), &mut pos, &spaces);
    resolve_rel_m_move(&data(Lr::Left, Ax::X, -3), &mut pos, &spaces);
    assert_eq!(pos.l.x, 207);
}

#[test]
fn huge_deltas_do_not_wrap() {
    let spaces = MouseSpaces {
        l: MouseSpace::new(i32::MIN, i32::MAX, i32::MIN, i32::MAX).unwrap(),
        r: MouseSpace::new(0, 100, 0, 100).unwrap(),
    };
    let mut pos = at(i32::MAX - 1, i32::MIN, 0, 0);
    resolve_rel_m_move(&data(Lr::Left, Ax::X, i32::MAX), &mut pos, &spaces);
    assert_eq!(pos.l.x, i32::MAX - 1);
    resolve_rel_m_move(&data(Lr::Left, Ax::Y, i32::MIN), &mut pos, &spaces);
    assert_eq!(pos.l.y, i32::MIN);
    resolve_rel_m_move(&data(Lr::Left, Ax::Y, i32::MAX), &mut pos, &spaces);
    assert_eq!(pos.l.y, -1);
    resolve_abs_m_move(&data(Lr::Left, Ax::X, i32::MAX), &mut pos, &spaces);
    assert_eq!(pos.l.x, i32::MAX - 1);
}

#[test]
fn start_outside_the_rectangle_is_clamped_on_first_update() {
    let spaces = both(100, 500);
    let mut pos = at(0, 0, 0, 0);
    resolve_rel_m_move(&data(Lr::Left, Ax::X, 10), &mut pos, &spaces);
    assert_eq!(pos, at(100, 0, 0, 0));
}

#[test]
fn moves_of_one_side_never_reach_the_other() {
    let spaces = both(0, 100);
    let moves = vec![
        MouseMove::Rel(data(Lr::Left, Ax::X, 7)),
        MouseMove::Rel(data(Lr::Right, Ax::Y, 40)),
        MouseMove::Abs(data(Lr::Left, Ax::Y, 99)),
        MouseMove::Rel(data(Lr::Right, Ax::Y, -15)),
        MouseMove::Abs(data(Lr::Right, Ax::X, 3)),
        MouseMove::Rel(data(Lr::Left, Ax::X, 1000)),
    ];
    let start = at(1, 2, 3, 4);

    let mut all = start;
    apply_moves(&moves, &mut all, &spaces);
    assert_eq!(all, at(99, 99, 3, 29));

    let left_only: Vec<MouseMove> =
        moves.iter().copied().filter(|m| matches!(m, MouseMove::Rel(d) | MouseMove::Abs(d) if d.lr == Lr::Left)).collect();
    let mut left = start;
    apply_moves(&left_only, &mut left, &spaces);
    assert_eq!(left.l, all.l);
    assert_eq!(left.r, start.r);

    let right_only: Vec<MouseMove> =
        moves.iter().copied().filter(|m| matches!(m, MouseMove::Rel(d) | MouseMove::Abs(d) if d.lr == Lr::Right)).collect();
    let mut right = start;
    apply_moves(&right_only, &mut right, &spaces);
    assert_eq!(right.r, all.r);
    assert_eq!(right.l, start.l);
}

#[test]
fn every_step_of_a_sequence_stays_inside() {
    let spaces = both(100, 500);
    let mut pos = at(100, 100, 499, 499);
    let deltas = [1000, -1, -2000, 399, 1, i32::MAX, i32::MIN, 0, 250];
    for (i, v) in deltas.iter().enumerate() {
        let lr = if i % 2 == 0 { Lr::Left } else { Lr::Right };
        let ax = if i % 3 == 0 { Ax::X } else { Ax::Y };
        apply_move(&MouseMove::Rel(data(lr, ax, *v)), &mut pos, &spaces);
        for p in [pos.l, pos.r] {
            assert!(100 <= p.x && p.x < 500);
            assert!(100 <= p.y && p.y < 500);
        }
    }
}

#[test]
fn no_moves_leave_the_position_alone() {
    let spaces = both(100, 500);
    let mut pos = at(0, 0, 7, 900);
    apply_moves(&Vec::new(), &mut pos, &spaces);
    assert_eq!(pos, at(0, 0, 7, 900));
}

#[test]
fn relative_then_absolute_on_the_left_device() {
    let spaces = both(0, 100);
    let mut pos = at(0, 0, 0, 0);
    apply_move(&MouseMove::Rel(data(Lr::Left, Ax::X, 30)), &mut pos, &spaces);
    assert_eq!(pos.l.x, 30);
    apply_move(&MouseMove::Abs(data(Lr::Left, Ax::X, 90)), &mut pos, &spaces);
    assert_eq!(pos.l.x, 90);
    assert_eq!(pos.l.y, 0);
    assert_eq!(pos.r, MousePos { x: 0, y: 0 });
}

#[test]
fn empty_rectangles_are_refused() {
    assert_eq!(
        MouseSpace::new(100, 500, 100, 500),
        Some(MouseSpace { top: 100, bottom: 500, right: 500, left: 100 })
    );
    assert_eq!(MouseSpace::new(0, 1, 0, 1), Some(MouseSpace { top: 0, bottom: 1, right: 1, left: 0 }));
    assert_eq!(MouseSpace::new(0, 100, 5, 5), None);
    assert_eq!(MouseSpace::new(0, 100, 6, 5), None);
    assert_eq!(MouseSpace::new(7, 7, 0, 100), None);
    assert_eq!(MouseSpace::new(8, 7, 0, 100), None);
    assert!(MouseSpace { top: 0, bottom: 1, right: 1, left: 0 }.is_valid());
    assert!(!MouseSpace { top: 0, bottom: 1, right: 0, left: 0 }.is_valid());
    assert!(!MouseSpace { top: 1, bottom: 1, right: 1, left: 0 }.is_valid());
    let good = square(0, 100);
    let bad = MouseSpace { top: 0, bottom: 0, right: 0, left: 0 };
    assert!(MouseSpaces { l: good, r: good }.is_valid());
    assert!(!MouseSpaces { l: good, r: bad }.is_valid());
    assert!(!MouseSpaces { l: bad, r: good }.is_valid());
}

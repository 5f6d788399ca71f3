use tetris_core::piece::{color_id, Piece, RotateDir, RotationState, TetrominoKind};

const KINDS: [TetrominoKind; 7] = [
    TetrominoKind::I,
    TetrominoKind::J,
    TetrominoKind::L,
    TetrominoKind::O,
    TetrominoKind::T,
    TetrominoKind::S,
    TetrominoKind::Z,
];

const ROTS: [RotationState; 4] = [
    RotationState::R0,
    RotationState::R90,
    RotationState::R180,
    RotationState::R270,
];

#[test]
fn absolute_cells_are_four_distinct_coordinates() {
    for kind in KINDS {
        for rot in ROTS {
            let p = Piece { kind, rot, x: 3, y: 7 };
            let cells = p.absolute_cells();
            assert_eq!(cells.len(), 4);
            for i in 0..4 {
                for j in 0..4 {
                    if i != j {
                        assert_ne!(cells[i], cells[j], "{:?} {:?}", kind, rot);
                    }
                }
            }
        }
    }
}

#[test]
fn absolute_cells_offsets_stay_in_shape_box() {
    for kind in KINDS {
        for rot in ROTS {
            let p = Piece { kind, rot, x: 0, y: 0 };
            for &(cx, cy) in p.absolute_cells().iter() {
                assert!((0..=3).contains(&cx) && (0..=3).contains(&cy));
            }
        }
    }
}

#[test]
fn o_kind_rotations_are_geometrically_identical() {
    let base = Piece { kind: TetrominoKind::O, rot: RotationState::R0, x: 5, y: 9 };
    let base_cells = base.absolute_cells();
    for rot in ROTS {
        let p = Piece { kind: TetrominoKind::O, rot, x: 5, y: 9 };
        assert_eq!(p.absolute_cells(), base_cells);
    }
}

#[test]
fn i_kind_r0_row_matches_table() {
    let p = Piece { kind: TetrominoKind::I, rot: RotationState::R0, x: 2, y: 6 };
    assert_eq!(p.absolute_cells(), vec![(2, 6), (3, 6), (4, 6), (5, 6)]);
}

#[test]
fn four_clockwise_rotations_restore_the_piece() {
    for kind in KINDS {
        for rot in ROTS {
            let p = Piece { kind, rot, x: -2, y: 11 };
            let q = p
                .rotated(RotateDir::Cw)
                .rotated(RotateDir::Cw)
                .rotated(RotateDir::Cw)
                .rotated(RotateDir::Cw);
            assert_eq!(q, p);
        }
    }
}

#[test]
fn counter_clockwise_undoes_clockwise() {
    for kind in KINDS {
        for rot in ROTS {
            let p = Piece { kind, rot, x: 1, y: 1 };
            assert_eq!(p.rotated(RotateDir::Cw).rotated(RotateDir::Ccw), p);
            assert_eq!(p.rotated(RotateDir::Ccw).rotated(RotateDir::Cw), p);
        }
    }
}

#[test]
fn translation_shifts_anchor_only() {
    let p = Piece { kind: TetrominoKind::T, rot: RotationState::R90, x: 4, y: 10 };
    let q = p.translated(-1, 2);
    assert_eq!(q.kind, p.kind);
    assert_eq!(q.rot, p.rot);
    assert_eq!(q.x, 3);
    assert_eq!(q.y, 12);
}

#[test]
fn color_ids_are_nonzero_and_distinct() {
    let ids: Vec<u8> = KINDS.iter().map(|&k| color_id(k)).collect();
    for (i, &a) in ids.iter().enumerate() {
        assert!(a != 0);
        for (j, &b) in ids.iter().enumerate() {
            if i != j {
                assert_ne!(a, b);
            }
        }
    }
}

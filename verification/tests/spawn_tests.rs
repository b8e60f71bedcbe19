use snake_core::Segment;
use snake_core::spawn::count_free_cells;
use snake_core::spawn::respawn_apple;
use snake_core::spawn::select_free_cell;

fn seg(x: i64, y: i64) -> Segment {
    Segment { x, y }
}

#[test]
fn counts_cells_off_body_and_apple() {
    let body = vec![seg(0, 0)];
    assert_eq!(count_free_cells(&body, seg(1, 0), 2, 2), 2);
    assert_eq!(count_free_cells(&body, seg(5, 5), 2, 2), 3);
    assert_eq!(count_free_cells(&Vec::new(), seg(5, 5), 4, 4), 16);
}

#[test]
fn selects_free_cells_row_major_by_rank() {
    // Cells in row-major order: (0,0) body, (1,0) apple, (0,1), (1,1).
    let body = vec![seg(0, 0)];
    assert_eq!(select_free_cell(&body, seg(1, 0), 2, 2, 0), seg(0, 1));
    assert_eq!(select_free_cell(&body, seg(1, 0), 2, 2, 1), seg(1, 1));
}

#[test]
fn respawn_takes_the_only_free_cell() {
    let body = vec![seg(0, 0)];
    assert_eq!(respawn_apple(&body, seg(1, 0), 3, 1), Some(seg(2, 0)));
}

#[test]
fn respawn_avoids_body_and_old_apple() {
    let body = vec![seg(3, 3), seg(2, 3), seg(1, 3)];
    let apple = seg(4, 3);
    for _ in 0..50 {
        let c = respawn_apple(&body, apple, 8, 8).unwrap();
        assert!(c.x >= 0 && c.x < 8 && c.y >= 0 && c.y < 8);
        assert_ne!(c, apple);
        for s in &body {
            assert_ne!(c, *s);
        }
    }
}

#[test]
fn respawn_reports_saturated_arena() {
    let body = vec![seg(0, 0), seg(1, 0)];
    assert_eq!(respawn_apple(&body, seg(5, 5), 2, 1), None);
    assert_eq!(respawn_apple(&Vec::new(), seg(0, 0), 1, 1), None);
    assert_eq!(respawn_apple(&Vec::new(), seg(0, 0), 0, 7), None);
}

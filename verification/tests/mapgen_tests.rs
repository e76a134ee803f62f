use shooter2d::mapgen::{rng_step, scatter_overlay, spawn_map, TileAnim};

fn anim() -> TileAnim {
    TileAnim { start: 0, count: 4, millis_per_frame: 250 }
}

#[test]
fn deterministic_fill_covers_every_cell() {
    // Two-by-two chunks of eight-by-eight cells: a sixteen-square grid,
    // every base cell the default tile, the overlay empty.
    let m = spawn_map(2, 2, 8, 8);
    assert_eq!((m.width, m.height), (16, 16));
    assert_eq!(m.base.len(), 256);
    assert_eq!(m.overlay.len(), 256);
    assert!(m.base.iter().all(|&t| t == 0));
    assert!(m.overlay.iter().all(|c| c.is_none()));
}

#[test]
fn scatter_with_same_seed_is_identical() {
    // The same seed and parameters give the same overlay positions,
    // however often generation is rerun.
    let mut m1 = spawn_map(2, 2, 8, 8);
    let mut m2 = spawn_map(2, 2, 8, 8);
    scatter_overlay(&mut m1, 42, 10, 8, 8, anim());
    scatter_overlay(&mut m2, 42, 10, 8, 8, anim());
    assert_eq!(m1.overlay, m2.overlay);
    let positions: Vec<usize> =
        m1.overlay.iter().enumerate().filter(|(_, c)| c.is_some()).map(|(i, _)| i).collect();
    let positions2: Vec<usize> =
        m2.overlay.iter().enumerate().filter(|(_, c)| c.is_some()).map(|(i, _)| i).collect();
    assert_eq!(positions, positions2);
    assert!(!positions.is_empty());
}

#[test]
fn scatter_with_other_seed_differs() {
    let mut m1 = spawn_map(4, 4, 8, 8);
    let mut m2 = spawn_map(4, 4, 8, 8);
    scatter_overlay(&mut m1, 1, 12, 16, 16, anim());
    scatter_overlay(&mut m2, 2, 12, 16, 16, anim());
    assert_ne!(m1.overlay, m2.overlay);
}

#[test]
fn scatter_stays_inside_the_sub_region() {
    let mut m = spawn_map(2, 2, 8, 8);
    // Scatter only over the half-scaled region of the grid.
    scatter_overlay(&mut m, 7, 20, 8, 8, anim());
    for (i, cell) in m.overlay.iter().enumerate() {
        if cell.is_some() {
            let x = i % 16;
            let y = i / 16;
            assert!(x < 8, "column {} outside the region", x);
            assert!(y < 8, "row {} outside the region", y);
        }
    }
}

#[test]
fn scatter_leaves_the_base_layer() {
    let mut m = spawn_map(2, 2, 8, 8);
    scatter_overlay(&mut m, 99, 20, 8, 8, anim());
    assert!(m.base.iter().all(|&t| t == 0));
    assert_eq!((m.width, m.height), (16, 16));
}

#[test]
fn duplicate_draws_overwrite_silently() {
    let mut m = spawn_map(2, 2, 8, 8);
    scatter_overlay(&mut m, 5, 40, 8, 8, anim());
    let placed = m.overlay.iter().filter(|c| c.is_some()).count();
    // Forty draws land on an eight-by-eight region: at most forty cells,
    // fewer when draws collide, never more than the region holds.
    assert!(placed <= 40);
    assert!(placed <= 64);
    assert!(placed > 0);
    assert!(m.overlay.iter().flatten().all(|a| *a == anim()));
}

#[test]
fn generator_steps_are_deterministic() {
    let a = rng_step(12345);
    let b = rng_step(12345);
    assert_eq!(a, b);
    assert_ne!(rng_step(a), a);
}

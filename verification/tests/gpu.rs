use reimu::gpu::{Gpu, SCREEN_HEIGHT, SCREEN_SIZE, SCREEN_WIDTH};

fn lit(gpu: &Gpu) -> Vec<(usize, usize)> {
    let mut on = Vec::new();
    for (idx, pixel) in gpu.screen().iter().enumerate() {
        if *pixel {
            on.push((idx % SCREEN_WIDTH, idx / SCREEN_WIDTH));
        }
    }
    on
}

#[test]
fn new_frame_is_blank() {
    let gpu = Gpu::new();
    assert_eq!(gpu.screen().len(), SCREEN_SIZE);
    assert_eq!(SCREEN_WIDTH * SCREEN_HEIGHT, SCREEN_SIZE);
    assert!(gpu.screen().iter().all(|p| !*p));
}

#[test]
fn set_turns_a_pixel_on_at_row_major_index() {
    let mut gpu = Gpu::new();
    assert!(!gpu.set(3, 2, true));
    assert!(gpu.screen()[2 * 64 + 3]);
    assert_eq!(lit(&gpu), vec![(3, 2)]);
}

#[test]
fn set_xors_and_reports_erasure() {
    let mut gpu = Gpu::new();
    assert!(!gpu.set(10, 10, true));
    assert!(!gpu.set(10, 10, false));
    assert_eq!(lit(&gpu), vec![(10, 10)]);
    assert!(gpu.set(10, 10, true));
    assert_eq!(lit(&gpu), vec![]);
    assert!(!gpu.set(10, 10, false));
    assert_eq!(lit(&gpu), vec![]);
}

#[test]
fn set_wraps_both_coordinates() {
    let mut gpu = Gpu::new();
    gpu.set(64 + 5, 32 + 7, true);
    assert_eq!(lit(&gpu), vec![(5, 7)]);
    gpu.set(usize::MAX, usize::MAX, true);
    assert_eq!(lit(&gpu), vec![(5, 7), (63, 31)]);
}

#[test]
fn clear_turns_every_pixel_off() {
    let mut gpu = Gpu::new();
    gpu.set(0, 0, true);
    gpu.set(63, 31, true);
    gpu.clear();
    assert!(gpu.screen().iter().all(|p| !*p));
}

#[test]
fn sprite_rows_are_drawn_msb_first() {
    let mut gpu = Gpu::new();
    let hit = gpu.draw_sprite(0, 0, &[0b1010_0001, 0b0100_0000]);
    assert!(!hit);
    assert_eq!(lit(&gpu), vec![(0, 0), (2, 0), (7, 0), (1, 1)]);
}

#[test]
fn sprite_wraps_round_both_edges() {
    let mut gpu = Gpu::new();
    let hit = gpu.draw_sprite(62, 31, &[0b1111_0000, 0b1000_0000]);
    assert!(!hit);
    assert_eq!(lit(&gpu), vec![(62, 0), (0, 31), (1, 31), (62, 31), (63, 31)]);
}

#[test]
fn sprite_origin_is_wrapped_on_entry() {
    let mut a = Gpu::new();
    let mut b = Gpu::new();
    a.draw_sprite(64 * 3 + 9, 32 * 5 + 4, &[0xFF, 0x81]);
    b.draw_sprite(9, 4, &[0xFF, 0x81]);
    assert_eq!(a.screen(), b.screen());
    let mut c = Gpu::new();
    c.draw_sprite(usize::MAX, usize::MAX, &[0xC0]);
    assert_eq!(lit(&c), vec![(0, 31), (63, 31)]);
}

#[test]
fn empty_sprite_draws_nothing() {
    let mut gpu = Gpu::new();
    gpu.set(1, 1, true);
    assert!(!gpu.draw_sprite(0, 0, &[]));
    assert_eq!(lit(&gpu), vec![(1, 1)]);
}

#[test]
fn collision_is_reported_only_for_erased_pixels() {
    let mut gpu = Gpu::new();
    gpu.set(0, 0, true);
    assert!(!gpu.draw_sprite(1, 0, &[0x80]));
    assert!(!gpu.draw_sprite(0, 0, &[0x00]));
    assert!(gpu.draw_sprite(0, 0, &[0x80]));
    assert_eq!(lit(&gpu), vec![(1, 0)]);
}

#[test]
fn drawing_twice_restores_the_frame() {
    let sprite = [0xF0, 0x90, 0x90, 0x90, 0xF0];
    let mut gpu = Gpu::new();
    gpu.set(5, 5, true);
    gpu.set(61, 30, true);
    let before: Vec<bool> = gpu.screen().to_vec();
    gpu.draw_sprite(60, 29, &sprite);
    assert_ne!(gpu.screen(), &before[..]);
    let second = gpu.draw_sprite(60, 29, &sprite);
    assert_eq!(gpu.screen(), &before[..]);
    assert!(second);
}

#[test]
fn second_drawing_on_a_blank_frame_collides() {
    let mut gpu = Gpu::new();
    assert!(!gpu.draw_sprite(12, 9, &[0x18, 0x24]));
    assert!(gpu.draw_sprite(12, 9, &[0x18, 0x24]));
    assert!(gpu.screen().iter().all(|p| !*p));
}

#[test]
fn second_drawing_misses_where_every_sprite_pixel_was_on() {
    let mut gpu = Gpu::new();
    gpu.set(0, 0, true);
    assert!(gpu.draw_sprite(0, 0, &[0x80]));
    assert!(!gpu.draw_sprite(0, 0, &[0x80]));
    assert_eq!(lit(&gpu), vec![(0, 0)]);
}

#[test]
fn second_drawing_of_a_dark_sprite_misses() {
    let mut gpu = Gpu::new();
    assert!(!gpu.draw_sprite(3, 3, &[0x00, 0x00]));
    assert!(!gpu.draw_sprite(3, 3, &[0x00, 0x00]));
}

#[test]
fn rows_beyond_the_screen_height_fall_on_earlier_rows() {
    let mut sprite = vec![0u8; 33];
    sprite[0] = 0x80;
    sprite[32] = 0x80;
    let mut gpu = Gpu::new();
    let hit = gpu.draw_sprite(0, 0, &sprite);
    assert!(hit);
    assert_eq!(lit(&gpu), vec![]);
    gpu.set(0, 0, true);
    assert!(gpu.draw_sprite(0, 0, &sprite));
    assert_eq!(lit(&gpu), vec![(0, 0)]);
}

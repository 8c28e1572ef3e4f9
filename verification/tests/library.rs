use rune_particles::atlas::build_atlas;
use rune_particles::controls::{next_palette_index, Controls, Response, WindowInput, PALETTE_LEN};
use rune_particles::rng::{Rng, DEFAULT_SEED};
use rune_particles::surface::SurfaceSize;

#[test]
fn rng_seed_one_first_draws() {
    let mut rng = Rng::new(1);
    assert_eq!(rng.next_u24(), 1056);
    assert_eq!(rng.next_u24(), 264198);
    assert_eq!(rng.next_u24(), 10341544);
}

#[test]
fn rng_particle_seed_first_draws() {
    let mut rng = Rng::new(0xC0FFEE);
    assert_eq!(rng.next_u24(), 16292670);
    assert_eq!(rng.next_u24(), 7732042);
    assert_eq!(rng.next_u24(), 9021597);
}

#[test]
fn rng_zero_seed_is_replaced() {
    let mut zero = Rng::new(0);
    let mut default = Rng::new(DEFAULT_SEED);
    assert_eq!(zero.next_u24(), 5311558);
    assert_eq!(default.next_u24(), 5311558);
    for _ in 0..1000 {
        assert_eq!(zero.next_u24(), default.next_u24());
    }
}

#[test]
fn rng_draws_have_24_bits_and_do_not_stall() {
    let mut rng = Rng::new(0xC0FFEE);
    let mut distinct_from_previous = 0;
    let mut previous = u32::MAX;
    for _ in 0..100_000 {
        let d = rng.next_u24();
        assert!(d < (1 << 24));
        if d != previous {
            distinct_from_previous += 1;
        }
        previous = d;
    }
    assert!(distinct_from_previous > 99_000);
}

#[test]
fn rng_same_seed_same_sequence() {
    let mut a = Rng::new(12345);
    let mut b = Rng::new(12345);
    for _ in 0..500 {
        assert_eq!(a.next_u24(), b.next_u24());
    }
}

fn cell(fill: impl Fn(usize, usize) -> u8) -> Vec<u8> {
    let mut v = Vec::new();
    for y in 0..64 {
        for x in 0..64 {
            v.push(fill(x, y));
        }
    }
    v
}

#[test]
fn atlas_size_of_nine_runes() {
    let coverage: Vec<Vec<u8>> = (0..9).map(|g| cell(move |_, _| g as u8)).collect();
    let (data, w, h) = build_atlas(&coverage);
    assert_eq!(w, 576);
    assert_eq!(h, 64);
    assert_eq!(data.len(), 576 * 64 * 4);
}

#[test]
fn atlas_places_each_rune_in_its_cell() {
    let a = cell(|x, y| (x + 2 * y) as u8);
    let b = cell(|x, y| (200 - x - y) as u8);
    let coverage = vec![a.clone(), b.clone()];
    let (data, w, h) = build_atlas(&coverage);
    assert_eq!((w, h), (128, 64));
    for y in 0..64usize {
        for col in 0..128usize {
            let i = (y * 128 + col) * 4;
            assert_eq!(&data[i..i + 3], &[255, 255, 255]);
            let expected = if col < 64 { a[y * 64 + col] } else { b[y * 64 + col - 64] };
            assert_eq!(data[i + 3], expected);
        }
    }
    // pixel (3, 5) of the second rune
    assert_eq!(data[(5 * 128 + 64 + 3) * 4 + 3], 200 - 3 - 5);
}

#[test]
fn atlas_without_runes_is_empty() {
    let (data, w, h) = build_atlas(&Vec::new());
    assert_eq!((data.len(), w, h), (0, 0, 64));
}

#[test]
fn surface_new_keeps_sides_positive() {
    let s = SurfaceSize::new(0, 800);
    assert_eq!((s.width(), s.height()), (1, 800));
    let s = SurfaceSize::new(1280, 0);
    assert_eq!((s.width(), s.height()), (1280, 1));
}

#[test]
fn surface_ignores_zero_sized_resize() {
    let mut s = SurfaceSize::new(1280, 800);
    assert!(!s.resize(0, 600));
    assert!(!s.resize(600, 0));
    assert_eq!((s.width(), s.height()), (1280, 800));
    assert!(s.resize(640, 480));
    assert_eq!((s.width(), s.height()), (640, 480));
}

#[test]
fn palette_cycles_through_four_states() {
    assert_eq!(PALETTE_LEN, 4);
    assert_eq!(next_palette_index(0), 1);
    assert_eq!(next_palette_index(2), 3);
    assert_eq!(next_palette_index(3), 0);
    let mut i = 1;
    for _ in 0..4 {
        i = next_palette_index(i);
    }
    assert_eq!(i, 1);
}

#[test]
fn controls_exit_on_close_and_escape_only() {
    let mut c = Controls::new();
    assert_eq!(c.handle(WindowInput::CloseRequested), Response::Exit);
    assert_eq!(c.handle(WindowInput::Key { pressed: true, escape: true }), Response::Exit);
    assert_eq!(c.handle(WindowInput::Key { pressed: false, escape: true }), Response::Nothing);
    assert_eq!(c.handle(WindowInput::Key { pressed: true, escape: false }), Response::Nothing);
}

#[test]
fn controls_click_spawns_next_colour_and_drags() {
    let mut c = Controls::new();
    assert_eq!(c.palette_index(), 0);
    assert_eq!(c.handle(WindowInput::CursorMoved), Response::TrackCursor { rotate: false });
    assert!(c.hovered());
    assert_eq!(c.handle(WindowInput::LeftButton { pressed: true }), Response::SpawnWave { palette: 1 });
    assert!(c.dragging());
    assert_eq!(c.handle(WindowInput::CursorMoved), Response::TrackCursor { rotate: true });
    assert_eq!(c.handle(WindowInput::LeftButton { pressed: false }), Response::Nothing);
    assert!(!c.dragging());
    assert_eq!(c.handle(WindowInput::CursorMoved), Response::TrackCursor { rotate: false });
    for expected in [2, 3, 0, 1] {
        assert_eq!(
            c.handle(WindowInput::LeftButton { pressed: true }),
            Response::SpawnWave { palette: expected }
        );
    }
    assert_eq!(c.palette_index(), 1);
}

#[test]
fn controls_cursor_leaving_clears_hover() {
    let mut c = Controls::new();
    c.handle(WindowInput::CursorMoved);
    assert_eq!(c.handle(WindowInput::CursorLeft), Response::ClearHover);
    assert!(!c.hovered());
}

#[test]
fn controls_route_resize_and_redraw() {
    let mut c = Controls::new();
    assert_eq!(
        c.handle(WindowInput::Resized { width: 1024, height: 768 }),
        Response::Resize { width: 1024, height: 768 }
    );
    assert_eq!(c.handle(WindowInput::ScaleFactorChanged), Response::ResizeToWindow);
    assert_eq!(c.handle(WindowInput::RedrawRequested), Response::Frame);
    assert_eq!(c.handle(WindowInput::OtherButton), Response::Nothing);
    assert_eq!(c.handle(WindowInput::Other), Response::Nothing);
    assert_eq!(c.palette_index(), 0);
    assert!(!c.dragging());
}

use codex_bridge::pets::protocol::{HelperCommand, HelperSnapshot, PetState};
use codex_bridge::pets_windows::animation::{current_frame, frames_for_state, frames_row, Frame};
use codex_bridge::pets_windows::canvas::{alpha_blend, fill_round_rect, put_pixel, WINDOW_HEIGHT, WINDOW_WIDTH};
use codex_bridge::pets_windows::card::render_canvas;
use codex_bridge::pets_windows::draw::{draw_char, draw_text};
use codex_bridge::pets_windows::glyph::{glyph, glyph_bit_set};
use codex_bridge::pets_windows::overlay::{normalized_pet, pet_ids, OverlayAction, OverlayState};
use codex_bridge::pets_windows::sprite::{load_pet, load_pets, sprite_index, PetAsset, PetSprite, SpriteError};
use codex_bridge::pets_windows::window::{to_bgra, wide, window_reactions, WindowMessage, WindowReaction};
use codex_bridge::pets_windows::wrap::draw_wrapped_text;

fn blank() -> Vec<u8> {
    vec![0u8; (WINDOW_WIDTH * WINDOW_HEIGHT * 4) as usize]
}

fn pixel(canvas: &[u8], x: i32, y: i32) -> [u8; 4] {
    let i = ((y * WINDOW_WIDTH + x) * 4) as usize;
    [canvas[i], canvas[i + 1], canvas[i + 2], canvas[i + 3]]
}

fn sprite(id: &str, color: [u8; 4]) -> PetSprite {
    let mut pixels = Vec::new();
    for _ in 0..(8 * 9) {
        pixels.extend_from_slice(&color);
    }
    PetSprite { id: id.to_string(), pixels, width: 8, height: 9 }
}

fn card(pet: &str) -> HelperSnapshot {
    HelperSnapshot {
        pet: pet.to_string(),
        state: PetState::Running,
        title: "rpc-codex".to_string(),
        subtitle: Some("Thinking".to_string()),
        detail: Some("Inspecting files".to_string()),
    }
}

#[test]
fn overlay_starts_hidden_with_codex() {
    let o = OverlayState::new();
    assert!(!o.visible());
    assert_eq!(o.selected_pet(), "codex");
    assert_eq!(o.snapshot().title, "Codex");
    assert_eq!(o.snapshot().subtitle, Some("Idle".to_string()));
    assert_eq!(o.snapshot().state, PetState::Idle);
}

#[test]
fn show_toggles_visibility() {
    let mut o = OverlayState::new();
    let actions = o.apply(HelperCommand::Show {
        pet: "rocky".to_string(),
        terminal_window_hint: Some("Ubuntu".to_string()),
    });
    assert_eq!(actions.len(), 3);
    assert!(matches!(&actions[0], OverlayAction::LocateTerminal { hint: Some(h) } if h == "Ubuntu"));
    assert!(matches!(actions[1], OverlayAction::Show));
    assert!(matches!(actions[2], OverlayAction::Render));
    assert!(o.visible());
    assert_eq!(o.selected_pet(), "rocky");
    assert_eq!(o.snapshot().pet, "rocky");

    let actions = o.apply(HelperCommand::Show { pet: "rocky".to_string(), terminal_window_hint: None });
    assert_eq!(actions.len(), 2);
    assert!(matches!(actions[0], OverlayAction::LocateTerminal { hint: None }));
    assert!(matches!(actions[1], OverlayAction::Hide));
    assert!(!o.visible());
}

#[test]
fn unknown_pets_fall_back_to_codex() {
    assert_eq!(normalized_pet("dewey"), "dewey");
    assert_eq!(normalized_pet("null-signal"), "null-signal");
    assert_eq!(normalized_pet("garfield"), "codex");
    assert_eq!(pet_ids().len(), 8);
    let mut o = OverlayState::new();
    o.apply(HelperCommand::SetSnapshot { snapshot: card("garfield") });
    assert_eq!(o.selected_pet(), "codex");
    assert_eq!(o.snapshot().pet, "codex");
    assert_eq!(o.snapshot().title, "rpc-codex");
}

#[test]
fn snapshot_restarts_the_animation_and_keeps_visibility() {
    let mut o = OverlayState::new();
    let actions = o.apply(HelperCommand::SetSnapshot { snapshot: card("seedy") });
    assert_eq!(actions.len(), 1);
    assert!(matches!(actions[0], OverlayAction::RestartAnimation));
    assert!(!o.visible());
    o.apply(HelperCommand::Show { pet: "seedy".to_string(), terminal_window_hint: None });
    let actions = o.apply(HelperCommand::SetSnapshot { snapshot: card("seedy") });
    assert_eq!(actions.len(), 2);
    assert!(matches!(actions[1], OverlayAction::Render));
    assert!(o.visible());
}

#[test]
fn hide_and_shutdown() {
    let mut o = OverlayState::new();
    o.apply(HelperCommand::Show { pet: "codex".to_string(), terminal_window_hint: None });
    let actions = o.apply(HelperCommand::Hide);
    assert!(matches!(actions[..], [OverlayAction::Hide]));
    assert!(!o.visible());
    let actions = o.apply(HelperCommand::Shutdown);
    assert!(matches!(actions[..], [OverlayAction::Destroy]));
}

#[test]
fn idle_animation_frames() {
    let frames = frames_for_state(PetState::Idle);
    let durations: Vec<u64> = frames.iter().map(|f| f.duration_ms).collect();
    assert_eq!(durations, vec![280, 110, 110, 140, 140, 320]);
    assert_eq!(current_frame(PetState::Idle, 0), Frame { row: 0, col: 0, duration_ms: 280 });
    assert_eq!(current_frame(PetState::Idle, 279).col, 0);
    assert_eq!(current_frame(PetState::Idle, 280).col, 1);
    assert_eq!(current_frame(PetState::Idle, 1099).col, 5);
    assert_eq!(current_frame(PetState::Idle, 1100).col, 0);
}

#[test]
fn state_animations_use_their_rows() {
    assert_eq!(current_frame(PetState::Running, 600), Frame { row: 7, col: 5, duration_ms: 220 });
    assert_eq!(current_frame(PetState::Running, 599).col, 4);
    assert_eq!(current_frame(PetState::Waiting, 0).row, 6);
    assert_eq!(current_frame(PetState::Review, 0).row, 8);
    let failed = frames_for_state(PetState::Failed);
    assert_eq!(failed.len(), 8);
    assert_eq!(failed[7], Frame { row: 5, col: 7, duration_ms: 240 });
    assert_eq!(frames_row(2, 10, 20, 0), Vec::<Frame>::new());
}

#[test]
fn animation_loops() {
    for state in [PetState::Idle, PetState::Running, PetState::Waiting, PetState::Review, PetState::Failed] {
        let total: u64 = frames_for_state(state).iter().map(|f| f.duration_ms).sum();
        for t in [0u64, 1, 119, 500, 999] {
            assert_eq!(current_frame(state, t), current_frame(state, t + total));
        }
    }
}

#[test]
fn glyphs_ignore_case() {
    assert_eq!(glyph('a'), glyph('A'));
    assert_eq!(glyph('A'), [0b01110, 0b10001, 0b10001, 0b11111, 0b10001, 0b10001, 0b10001]);
    assert_eq!(glyph('?'), [0, 0, 0, 0b11110, 0, 0, 0]);
    assert_eq!(glyph(' '), [0; 7]);
    assert!(glyph_bit_set(0b10000, 0));
    assert!(!glyph_bit_set(0b10000, 1));
    assert!(glyph_bit_set(0b00001, 4));
}

#[test]
fn put_pixel_blends_and_clips() {
    let mut c = blank();
    put_pixel(&mut c, 1, 0, [255, 0, 0, 255]);
    assert_eq!(pixel(&c, 1, 0), [255, 0, 0, 255]);
    assert_eq!(pixel(&c, 0, 0), [0, 0, 0, 0]);
    put_pixel(&mut c, 1, 0, [0, 0, 255, 0]);
    assert_eq!(pixel(&c, 1, 0), [255, 0, 0, 255]);
    let before = c.clone();
    put_pixel(&mut c, -1, 0, [9, 9, 9, 255]);
    put_pixel(&mut c, WINDOW_WIDTH, 0, [9, 9, 9, 255]);
    assert_eq!(c, before);
    let mut d = blank();
    put_pixel(&mut d, 0, 0, [200, 100, 50, 128]);
    assert_eq!(pixel(&d, 0, 0), [100, 50, 25, 128]);
}

#[test]
fn round_rect_rounds_its_corners() {
    let mut c = blank();
    fill_round_rect(&mut c, 0, 0, 2, 2, 0, [10, 20, 30, 255]);
    assert_eq!(pixel(&c, 0, 0), [10, 20, 30, 255]);
    assert_eq!(pixel(&c, 1, 1), [10, 20, 30, 255]);
    assert_eq!(pixel(&c, 2, 0), [0, 0, 0, 0]);
    let mut r = blank();
    fill_round_rect(&mut r, 10, 10, 20, 20, 5, [1, 2, 3, 255]);
    assert_eq!(pixel(&r, 10, 10), [0, 0, 0, 0]);
    assert_eq!(pixel(&r, 20, 20), [1, 2, 3, 255]);
    assert_eq!(pixel(&r, 15, 10), [1, 2, 3, 255]);
}

#[test]
fn text_is_drawn_glyph_by_glyph() {
    let mut c = blank();
    draw_text(&mut c, 0, 0, "I", 1, [255, 255, 255, 255]);
    assert_eq!(pixel(&c, 0, 0), [255, 255, 255, 255]);
    assert_eq!(pixel(&c, 1, 1), [0, 0, 0, 0]);
    assert_eq!(pixel(&c, 2, 1), [255, 255, 255, 255]);
    let mut d = blank();
    draw_char(&mut d, 0, 0, 'I', 1, [255, 255, 255, 255]);
    assert_eq!(c, d);
    let mut two = blank();
    draw_text(&mut two, 0, 0, "II", 2, [255, 255, 255, 255]);
    let mut parts = blank();
    draw_char(&mut parts, 0, 0, 'I', 2, [255, 255, 255, 255]);
    draw_char(&mut parts, 12, 0, 'I', 2, [255, 255, 255, 255]);
    assert_eq!(two, parts);
}

#[test]
fn text_stops_after_forty_eight_characters() {
    let long: String = std::iter::repeat('I').take(60).collect();
    let mut a = blank();
    draw_text(&mut a, 0, 0, &long, 1, [255, 255, 255, 255]);
    let mut b = blank();
    draw_text(&mut b, 0, 0, &long[..48], 1, [255, 255, 255, 255]);
    assert_eq!(a, b);
}

#[test]
fn wrapped_text_breaks_between_words() {
    let white = [255, 255, 255, 255];
    let mut a = blank();
    draw_wrapped_text(&mut a, 0, 0, "aa   bb", 4, white);
    let mut b = blank();
    draw_text(&mut b, 0, 0, "aa", 1, white);
    draw_text(&mut b, 0, 14, "bb", 1, white);
    assert_eq!(a, b);

    let mut c = blank();
    draw_wrapped_text(&mut c, 0, 0, "aa bb", 5, white);
    let mut d = blank();
    draw_text(&mut d, 0, 0, "aa bb", 1, white);
    assert_eq!(c, d);
}

#[test]
fn wrapped_text_keeps_four_lines_and_a_word() {
    let white = [255, 255, 255, 255];
    let mut a = blank();
    draw_wrapped_text(&mut a, 0, 0, "a b c d e f g", 1, white);
    let mut b = blank();
    for (i, w) in ["a", "b", "c", "d", "e"].iter().enumerate() {
        draw_text(&mut b, 0, 14 * i as i32, w, 1, white);
    }
    assert_eq!(a, b);
    let mut empty = blank();
    draw_wrapped_text(&mut empty, 0, 0, "   ", 10, white);
    assert_eq!(empty, blank());
}

#[test]
fn bgra_swaps_red_and_blue() {
    assert_eq!(to_bgra(&vec![1, 2, 3, 4, 5, 6, 7, 8, 9]), vec![3, 2, 1, 4, 7, 6, 5, 8]);
    assert_eq!(to_bgra(&to_bgra(&vec![1, 2, 3, 4])), vec![1, 2, 3, 4]);
    assert_eq!(to_bgra(&vec![]), Vec::<u8>::new());
}

#[test]
fn wide_strings_are_nul_terminated_utf16() {
    assert_eq!(wide("ab"), vec![97, 98, 0]);
    assert_eq!(wide(""), vec![0]);
    assert_eq!(wide("é😀"), vec![0xE9, 0xD83D, 0xDE00, 0]);
    let expected: Vec<u16> = "Codex Pets".encode_utf16().chain(std::iter::once(0)).collect();
    assert_eq!(wide("Codex Pets"), expected);
}

#[test]
fn window_messages_map_to_reactions() {
    assert!(window_reactions(WindowMessage::Timer, false)
        == vec![WindowReaction::DrainCommands, WindowReaction::AdvanceMomentum, WindowReaction::Render]);
    assert!(window_reactions(WindowMessage::LeftButtonDown, false) == vec![WindowReaction::BeginDrag]);
    assert!(window_reactions(WindowMessage::MouseMove, true) == vec![WindowReaction::UpdateDrag]);
    assert!(window_reactions(WindowMessage::MouseMove, false).is_empty());
    assert!(window_reactions(WindowMessage::LeftButtonUp, true)
        == vec![WindowReaction::ReleaseCapture, WindowReaction::EndDrag, WindowReaction::FocusTerminal]);
    assert!(window_reactions(WindowMessage::LeftButtonDoubleClick, false) == vec![WindowReaction::FocusTerminal]);
    assert!(window_reactions(WindowMessage::Destroy, false) == vec![WindowReaction::Quit]);
    assert!(window_reactions(WindowMessage::Other, false) == vec![WindowReaction::Default]);
}

#[test]
fn undecodable_spritesheets_are_reported() {
    match load_pet("rocky", b"not an image") {
        Err(e @ SpriteError::Decode { .. }) => {
            assert_eq!(e.message(), "failed to decode rocky pet spritesheet")
        }
        _ => panic!("expected a decode error"),
    }
    let assets = vec![PetAsset { id: "bad".to_string(), bytes: vec![1, 2, 3] }];
    match load_pets(&assets) {
        Err(SpriteError::Decode { id, .. }) => assert_eq!(id, "bad"),
        _ => panic!("expected a decode error"),
    }
    assert!(load_pets(&Vec::new()).ok().expect("no sprites").is_empty());
}

#[test]
fn sprite_is_chosen_by_id() {
    let sprites = vec![sprite("a", [1, 1, 1, 255]), sprite("b", [2, 2, 2, 255]), sprite("b", [3, 3, 3, 255])];
    assert_eq!(sprite_index(&sprites, "b"), 1);
    assert_eq!(sprite_index(&sprites, "a"), 0);
    assert_eq!(sprite_index(&sprites, "zz"), 0);
}

#[test]
fn overlay_picture_has_card_and_mascot() {
    let sprites = vec![sprite("codex", [0, 0, 255, 255]), sprite("rocky", [255, 0, 0, 255])];
    let snapshot = card("rocky");
    let canvas = render_canvas(&snapshot, &sprites, "rocky", 0);
    assert_eq!(canvas.len(), (WINDOW_WIDTH * WINDOW_HEIGHT * 4) as usize);
    assert_eq!(pixel(&canvas, 0, 0), [0, 0, 0, 0]);
    assert_eq!(pixel(&canvas, 351, 122), [19, 21, 24, 225]);
    assert_eq!(pixel(&canvas, 250, 200), [255, 0, 0, 255]);
    let again = render_canvas(&snapshot, &sprites, "rocky", 0);
    assert_eq!(canvas, again);
    let fallback = render_canvas(&snapshot, &sprites, "missing", 0);
    assert_eq!(pixel(&fallback, 250, 200), [0, 0, 255, 255]);
}

#[test]
fn spritesheets_decode_to_their_pixels() {
    let mut pixels = Vec::new();
    for i in 0..(8u32 * 9) {
        pixels.extend_from_slice(&[(i * 3) as u8, 200, (255 - i) as u8, 255]);
    }
    let mut encoded = Vec::new();
    image::codecs::webp::WebPEncoder::new_lossless(&mut encoded)
        .encode(&pixels, 8, 9, image::ExtendedColorType::Rgba8)
        .expect("encode");
    let sprite = load_pet("rocky", &encoded).ok().expect("decoded");
    assert_eq!(sprite.id, "rocky");
    assert_eq!((sprite.width, sprite.height), (8, 9));
    assert_eq!(sprite.pixels, pixels);
    let sprites = load_pets(&vec![PetAsset { id: "rocky".to_string(), bytes: encoded }])
        .ok()
        .expect("decoded");
    assert_eq!(sprites.len(), 1);
    assert_eq!(sprites[0].pixels, pixels);
}

#[test]
fn alpha_blend_mixes_by_source_alpha() {
    assert_eq!(alpha_blend([0, 0, 0, 0], [255, 0, 0, 255]), [255, 0, 0, 255]);
    assert_eq!(alpha_blend([10, 20, 30, 40], [255, 255, 255, 0]), [10, 20, 30, 40]);
    assert_eq!(alpha_blend([0, 0, 0, 0], [200, 100, 50, 128]), [100, 50, 25, 128]);
    assert_eq!(alpha_blend([255, 255, 255, 255], [0, 0, 0, 128]), [127, 127, 127, 255]);
}

#[test]
fn drawing_far_outside_the_window_changes_nothing() {
    let white = [255, 255, 255, 255];
    let mut c = blank();
    draw_text(&mut c, 1_000_000, 5, "far away", 3, white);
    draw_text(&mut c, i32::MAX - 6 * 48, 0, "edge", 1, white);
    draw_char(&mut c, -2_000_000_000, -2_000_000_000, 'W', 300, white);
    fill_round_rect(&mut c, i32::MIN, i32::MIN, 100, 100, 0, white);
    draw_wrapped_text(&mut c, -1_000_000, 0, "a b c", 1, white);
    assert_eq!(c, blank());
}

#[test]
fn huge_radius_rounds_everything_off_but_the_middle() {
    let mut c = blank();
    fill_round_rect(&mut c, 0, 0, 3, 3, 2_000_000_000, [1, 2, 3, 255]);
    let mut painted = 0;
    for y in 0..3 {
        for x in 0..3 {
            if pixel(&c, x, y)[3] != 0 {
                painted += 1;
            }
        }
    }
    let mut expected = blank();
    for y in 0..3i64 {
        for x in 0..3i64 {
            let r: i64 = 2_000_000_000;
            let cx = if x < r { r } else if x >= 3 - r { 3 - r - 1 } else { x };
            let cy = if y < r { r } else if y >= 3 - r { 3 - r - 1 } else { y };
            let (dx, dy) = ((x - cx) as i128, (y - cy) as i128);
            if dx * dx + dy * dy <= (r as i128) * (r as i128) {
                put_pixel(&mut expected, x as i32, y as i32, [1, 2, 3, 255]);
            }
        }
    }
    assert_eq!(c, expected);
    assert!(painted <= 9);
}

#[test]
fn large_scale_characters_cover_whole_blocks() {
    let mut c = blank();
    draw_char(&mut c, 0, 0, 'I', 40, [9, 9, 9, 255]);
    assert_eq!(pixel(&c, 0, 0), [9, 9, 9, 255]);
    assert_eq!(pixel(&c, 199, 39), [9, 9, 9, 255]);
    assert_eq!(pixel(&c, 0, 40), [0, 0, 0, 0]);
    assert_eq!(pixel(&c, 80, 40), [9, 9, 9, 255]);
}

#[test]
fn short_text_and_glyphs_fit_up_to_the_last_column() {
    let white = [255, 255, 255, 255];
    let mut c = blank();
    draw_text(&mut c, i32::MAX - 6, 0, "a", 1, white);
    draw_text(&mut c, i32::MAX - 12, 0, "a\nb", 2, white);
    draw_char(&mut c, i32::MAX - 4, i32::MAX - 6, 'M', 1, white);
    assert_eq!(c, blank());
}

#[test]
fn tiny_spritesheets_still_draw() {
    let tiny = PetSprite { id: "dot".to_string(), pixels: vec![255, 0, 0, 255], width: 1, height: 1 };
    let canvas = render_canvas(&card("dot"), &vec![tiny], "dot", 0);
    assert_eq!(pixel(&canvas, 244, 191), [255, 0, 0, 255]);
    assert_eq!(pixel(&canvas, 355, 311), [255, 0, 0, 255]);
}

#[test]
fn only_sized_complete_sheets_are_drawable() {
    assert!(sprite("a", [1, 2, 3, 4]).drawable());
    let tiny = PetSprite { id: "t".to_string(), pixels: vec![0, 0, 0, 0], width: 1, height: 1 };
    assert!(tiny.drawable());
    let empty = PetSprite { id: "e".to_string(), pixels: Vec::new(), width: 0, height: 9 };
    assert!(!empty.drawable());
    let short = PetSprite { id: "s".to_string(), pixels: vec![0; 4], width: 2, height: 1 };
    assert!(!short.drawable());
    let huge = PetSprite { id: "h".to_string(), pixels: Vec::new(), width: 0x1_0000, height: 0x1_0000 };
    assert!(!huge.drawable());
    let tall = PetSprite { id: "t".to_string(), pixels: Vec::new(), width: 1, height: 400_000_000 };
    assert!(!tall.drawable());
}

#[test]
fn load_pet_keeps_the_decoded_size() {
    let mut encoded = Vec::new();
    image::codecs::webp::WebPEncoder::new_lossless(&mut encoded)
        .encode(&[9, 8, 7, 255], 1, 1, image::ExtendedColorType::Rgba8)
        .expect("encode");
    let sprite = load_pet("dot", &encoded).ok().expect("decoded");
    assert_eq!((sprite.width, sprite.height), (1, 1));
    assert_eq!(sprite.pixels, vec![9, 8, 7, 255]);
    assert!(sprite.drawable());
}

#[test]
fn drags_keep_the_last_five_samples() {
    let mut samples: Vec<u32> = Vec::new();
    for i in 0..3 {
        codex_bridge::pets_windows::window::record_drag_sample(&mut samples, i);
    }
    assert_eq!(samples, vec![0, 1, 2]);
    for i in 3..9 {
        codex_bridge::pets_windows::window::record_drag_sample(&mut samples, i);
    }
    assert_eq!(samples, vec![4, 5, 6, 7, 8]);
    let mut long: Vec<u32> = (0..8).collect();
    codex_bridge::pets_windows::window::record_drag_sample(&mut long, 8);
    assert_eq!(long, vec![4, 5, 6, 7, 8]);
}

//! The overlay's picture: the activity card with the pet in front of it.
use vstd::prelude::*;

use crate::pets::protocol::{HelperSnapshot, HelperSnapshotView};
use crate::pets_windows::animation::{current_frame, current_frame_spec};
use crate::pets_windows::canvas::{canvas_len, fill_round_rect, paint, round_rect, solid, WINDOW_HEIGHT, WINDOW_WIDTH};
use crate::pets_windows::draw::{draw_text, lemma_room_for_text, text_canvas};
use crate::pets_windows::sprite::{
    draw_sprite_frame, sprite_canvas, sprite_ids, sprite_index, sprite_index_for, PetSprite,
};
use crate::pets_windows::wrap::{draw_wrapped_text, wrapped_canvas};
use crate::text::utf8_len;

verus! {

pub const CARD_LEFT: i32 = 80;

pub const CARD_TOP: i32 = 52;

pub const CARD_WIDTH: i32 = 276;

pub const CARD_HEIGHT: i32 = 142;

/// Where the pet is drawn.
pub const MASCOT_X: i32 = 244;

pub const MASCOT_Y: i32 = 191;

/// The card's background.
pub open spec fn card_background() -> [u8; 4] {
    [22, 24, 28, 225]
}

/// The card's title bar.
pub open spec fn card_title_bar() -> [u8; 4] {
    [45, 49, 58, 230]
}

pub open spec fn title_color() -> [u8; 4] {
    [245, 246, 248, 255]
}

pub open spec fn subtitle_color() -> [u8; 4] {
    [210, 220, 235, 255]
}

pub open spec fn detail_color() -> [u8; 4] {
    [170, 181, 196, 255]
}

/// Characters per line of the card's wrapped detail.
pub const DETAIL_LINE_CHARS: usize = 35;

/// The canvas after drawing the activity card for `snapshot`: a rounded
/// panel with a title bar, the title at double size, the subtitle at double
/// size when there is one, and the detail wrapped below when there is one.
pub open spec fn card_canvas(canvas: Seq<u8>, snapshot: HelperSnapshotView) -> Seq<u8> {
    let panel = paint(
        canvas,
        round_rect(CARD_LEFT as int, CARD_TOP as int, CARD_WIDTH as int, CARD_HEIGHT as int, 18),
        solid(card_background()),
    );
    let bar = paint(
        panel,
        round_rect(CARD_LEFT as int, CARD_TOP as int, CARD_WIDTH as int, 28, 18),
        solid(card_title_bar()),
    );
    let titled = text_canvas(bar, CARD_LEFT + 14, CARD_TOP + 11, snapshot.title, 2, title_color());
    let subtitled = match snapshot.subtitle {
        Some(s) => text_canvas(titled, CARD_LEFT + 14, CARD_TOP + 44, s, 2, subtitle_color()),
        None => titled,
    };
    match snapshot.detail {
        Some(d) => wrapped_canvas(
            subtitled,
            CARD_LEFT + 14,
            CARD_TOP + 72,
            d,
            DETAIL_LINE_CHARS as int,
            detail_color(),
        ),
        None => subtitled,
    }
}

/// Whether a snapshot's text can be measured in bytes.
pub open spec fn snapshot_measurable(snapshot: HelperSnapshotView) -> bool {
    snapshot.detail matches Some(d) ==> utf8_len(d) <= usize::MAX
}

/// Draws the activity card for `snapshot`.
pub fn draw_card(canvas: &mut Vec<u8>, snapshot: &HelperSnapshot)
    requires
        old(canvas)@.len() == canvas_len(),
        snapshot_measurable(snapshot@),
    ensures
        final(canvas)@ == card_canvas(old(canvas)@, snapshot@),
        final(canvas)@.len() == canvas_len(),
{
    fill_round_rect(
        canvas,
        CARD_LEFT,
        CARD_TOP,
        CARD_WIDTH,
        CARD_HEIGHT,
        18,
        [22, 24, 28, 225],
    );
    fill_round_rect(canvas, CARD_LEFT, CARD_TOP, CARD_WIDTH, 28, 18, [45, 49, 58, 230]);
    proof {
        lemma_room_for_text((CARD_LEFT + 14) as i32, (CARD_TOP + 11) as i32, 2, snapshot.title@);
    }
    draw_text(
        canvas,
        CARD_LEFT + 14,
        CARD_TOP + 11,
        snapshot.title.as_str(),
        2,
        [245, 246, 248, 255],
    );
    match &snapshot.subtitle {
        Some(subtitle) => {
            proof {
                lemma_room_for_text((CARD_LEFT + 14) as i32, (CARD_TOP + 44) as i32, 2, subtitle@);
            }
            draw_text(
                canvas,
                CARD_LEFT + 14,
                CARD_TOP + 44,
                subtitle.as_str(),
                2,
                [210, 220, 235, 255],
            );
        },
        None => {},
    }
    match &snapshot.detail {
        Some(detail) => {
            draw_wrapped_text(
                canvas,
                CARD_LEFT + 14,
                CARD_TOP + 72,
                detail.as_str(),
                DETAIL_LINE_CHARS,
                [170, 181, 196, 255],
            );
        },
        None => {},
    }
}

/// The card shows only a snapshot's title, subtitle and detail: two
/// snapshots that agree on those draw the same card, whatever their pet and
/// state.
pub proof fn lemma_card_shows_only_text(
    canvas: Seq<u8>,
    a: HelperSnapshotView,
    b: HelperSnapshotView,
)
    requires
        a.title == b.title,
        a.subtitle == b.subtitle,
        a.detail == b.detail,
    ensures
        card_canvas(canvas, a) == card_canvas(canvas, b),
{
}

/// A canvas of transparent black pixels.
pub open spec fn blank_canvas() -> Seq<u8> {
    Seq::new(canvas_len() as nat, |i: int| 0u8)
}

/// The overlay's picture: the card for `snapshot` on a blank canvas, and in
/// front of it the pet `selected` (the first sprite with that id, else the
/// first sprite) in the frame of its animation `elapsed_ms` in.
pub open spec fn overlay_picture(
    snapshot: HelperSnapshotView,
    sprites: Seq<PetSprite>,
    selected: Seq<char>,
    elapsed_ms: u64,
) -> Seq<u8> {
    sprite_canvas(
        card_canvas(blank_canvas(), snapshot),
        sprites[sprite_index_for(sprite_ids(sprites), selected)],
        current_frame_spec(snapshot.state, elapsed_ms),
        MASCOT_X as int,
        MASCOT_Y as int,
    )
}

/// Paints the overlay's picture for `snapshot`, showing pet `selected_pet`
/// `elapsed_ms` milliseconds into its animation; the sprite shown must be
/// drawable (see [`PetSprite::drawable`]).
pub fn render_canvas(
    snapshot: &HelperSnapshot,
    sprites: &Vec<PetSprite>,
    selected_pet: &str,
    elapsed_ms: u64,
) -> (canvas: Vec<u8>)
    requires
        sprites@.len() >= 1,
        sprites@[sprite_index_for(sprite_ids(sprites@), selected_pet@)].well_formed(),
        snapshot_measurable(snapshot@),
    ensures
        canvas@ == overlay_picture(snapshot@, sprites@, selected_pet@, elapsed_ms),
{
    let len: usize = (WINDOW_WIDTH * WINDOW_HEIGHT * 4) as usize;
    let mut canvas: Vec<u8> = vec![0u8; len];
    assert(canvas@ == blank_canvas());
    draw_card(&mut canvas, snapshot);
    let index = sprite_index(sprites, selected_pet);
    let frame = current_frame(snapshot.state, elapsed_ms);
    draw_sprite_frame(&mut canvas, &sprites[index], frame, MASCOT_X, MASCOT_Y);
    canvas
}

} // verus!

//! What the overlay's window needs from the picture and from text: pixels
//! in the order the screen takes them, wide strings for window titles, and
//! the window's answer to each mouse and timer message.
use vstd::prelude::*;

use crate::text::chars_of;

verus! {

/// Byte `i` of the BGRA copy of `rgba`: red and blue swap places within
/// each four-byte pixel.
pub open spec fn bgra_byte(rgba: Seq<u8>, i: int) -> u8 {
    let base = i - i % 4;
    if i % 4 == 0 {
        rgba[base + 2]
    } else if i % 4 == 2 {
        rgba[base]
    } else {
        rgba[i]
    }
}

/// The BGRA copy of the whole pixels of `rgba`.
pub open spec fn bgra_of(rgba: Seq<u8>) -> Seq<u8> {
    Seq::new((rgba.len() / 4 * 4) as nat, |i: int| bgra_byte(rgba, i))
}

/// Reorders RGBA pixels into the BGRA order of a Windows device-independent
/// bitmap; a trailing partial pixel is dropped.
pub fn to_bgra(rgba: &Vec<u8>) -> (bgra: Vec<u8>)
    ensures
        bgra@ == bgra_of(rgba@),
{
    let pixels: usize = rgba.len() / 4;
    let mut out: Vec<u8> = Vec::new();
    let mut p: usize = 0;
    while p < pixels
        invariant
            pixels == rgba@.len() / 4,
            p <= pixels,
            out@ == bgra_of(rgba@).take(4 * p),
        decreases pixels - p,
    {
        assert(4 * p + 4 <= rgba@.len()) by (nonlinear_arith)
            requires
                p < pixels,
                pixels == rgba@.len() / 4,
        ;
        assert(rgba@.len() == rgba.len());
        let base: usize = 4 * p;
        out.push(rgba[base + 2]);
        out.push(rgba[base + 1]);
        out.push(rgba[base]);
        out.push(rgba[base + 3]);
        p = p + 1;
        assert(out@ == bgra_of(rgba@).take(4 * p)) by {
            assert forall|i: int| 4 * (p - 1) <= i < 4 * p implies out@[i] == bgra_of(rgba@)[i] by {
                assert(i - i % 4 == 4 * (p - 1));
            }
        }
    }
    assert(bgra_of(rgba@).take(4 * p) == bgra_of(rgba@));
    out
}

/// Swapping red and blue twice gives the pixels back.
pub proof fn lemma_bgra_involution(rgba: Seq<u8>)
    requires
        rgba.len() % 4 == 0,
    ensures
        bgra_of(bgra_of(rgba)) == rgba,
{
    let once = bgra_of(rgba);
    let twice = bgra_of(once);
    assert forall|i: int| 0 <= i < rgba.len() implies twice[i] == rgba[i] by {
        let base = i - i % 4;
        assert(base + 2 - (base + 2) % 4 == base);
        assert(base - base % 4 == base);
    }
    assert(twice == rgba);
}

/// The UTF-16 code units of `c`: the value itself below `U+10000`, else a
/// surrogate pair.
pub open spec fn utf16_units(c: char) -> Seq<u16> {
    let v = c as u32;
    if v < 0x10000 {
        seq![v as u16]
    } else {
        seq![(0xD800 + (v - 0x10000) / 1024) as u16, (0xDC00 + (v - 0x10000) % 1024) as u16]
    }
}

/// The UTF-16 encoding of `s`.
pub open spec fn utf16_of(s: Seq<char>) -> Seq<u16>
    decreases s.len(),
{
    if s.len() == 0 {
        Seq::empty()
    } else {
        utf16_of(s.drop_last()) + utf16_units(s.last())
    }
}

/// `value` as a NUL-terminated UTF-16 string, the form Windows APIs take.
pub fn wide(value: &str) -> (units: Vec<u16>)
    ensures
        units@ == utf16_of(value@).push(0u16),
{
    let chars = chars_of(value);
    let mut units: Vec<u16> = Vec::new();
    let mut i: usize = 0;
    while i < chars.len()
        invariant
            i <= chars@.len(),
            chars@ == value@,
            units@ == utf16_of(chars@.take(i as int)),
        decreases chars@.len() - i,
    {
        let v: u32 = chars[i] as u32;
        proof {
            vstd::utf8::char_is_scalar(chars@[i as int]);
        }
        assert(chars@.take(i + 1).drop_last() == chars@.take(i as int));
        if v < 0x10000 {
            units.push(v as u16);
        } else {
            let rest: u32 = v - 0x10000;
            units.push((0xD800 + rest / 1024) as u16);
            units.push((0xDC00 + rest % 1024) as u16);
        }
        i = i + 1;
    }
    assert(chars@.take(chars@.len() as int) == chars@);
    units.push(0u16);
    units
}

/// The number of recent pointer samples a drag keeps.
pub const DRAG_SAMPLES: usize = 5;

/// The last [`DRAG_SAMPLES`] of `samples`, or all of them when there are no
/// more.
pub open spec fn recent_samples<T>(samples: Seq<T>) -> Seq<T> {
    if samples.len() > DRAG_SAMPLES {
        samples.skip(samples.len() - DRAG_SAMPLES)
    } else {
        samples
    }
}

/// Records a pointer sample of a drag, dropping the oldest so that at most
/// [`DRAG_SAMPLES`] remain.
pub fn record_drag_sample<T>(samples: &mut Vec<T>, sample: T)
    ensures
        final(samples)@ == recent_samples(old(samples)@.push(sample)),
{
    let ghost all = samples@.push(sample);
    samples.push(sample);
    let ghost mut dropped: int = 0;
    while samples.len() > DRAG_SAMPLES
        invariant
            0 <= dropped <= all.len(),
            samples@ == all.skip(dropped),
            dropped > 0 ==> samples@.len() >= DRAG_SAMPLES,
        decreases samples@.len(),
    {
        samples.remove(0);
        proof {
            assert(all.skip(dropped).remove(0) =~= all.skip(dropped + 1));
            dropped = dropped + 1;
        }
    }
    proof {
        if dropped > 0 {
            assert(dropped == all.len() - DRAG_SAMPLES);
        } else {
            assert(all.skip(0) =~= all);
        }
    }
}

/// The window messages the overlay handles itself.
pub enum WindowMessage {
    Timer,
    LeftButtonDown,
    MouseMove,
    LeftButtonUp,
    LeftButtonDoubleClick,
    Destroy,
    Other,
}

/// What the overlay does for a window message, in order.
#[derive(PartialEq, Eq, Structural)]
pub enum WindowReaction {
    /// Apply the bridge's pending commands.
    DrainCommands,
    /// Move the window one step of its momentum.
    AdvanceMomentum,
    /// Repaint the picture.
    Render,
    /// Start dragging the window with the mouse.
    BeginDrag,
    /// Move the window with the mouse.
    UpdateDrag,
    /// Let go of the mouse capture.
    ReleaseCapture,
    /// Stop dragging and let the window glide on.
    EndDrag,
    /// Give focus back to the terminal.
    FocusTerminal,
    /// Stop the animation timer and end the message loop.
    Quit,
    /// Let Windows handle the message.
    Default,
}

/// The overlay's reactions to a message: every tick drains commands, moves
/// and repaints; a press starts a drag that mouse moves follow; a release
/// ends it and returns focus to the terminal, as a double click does;
/// destruction ends the overlay; anything else is left to Windows.
pub open spec fn reactions_for(message: WindowMessage, dragging: bool) -> Seq<WindowReaction> {
    match message {
        WindowMessage::Timer => seq![
            WindowReaction::DrainCommands,
            WindowReaction::AdvanceMomentum,
            WindowReaction::Render,
        ],
        WindowMessage::LeftButtonDown => seq![WindowReaction::BeginDrag],
        WindowMessage::MouseMove => if dragging {
            seq![WindowReaction::UpdateDrag]
        } else {
            Seq::empty()
        },
        WindowMessage::LeftButtonUp => seq![
            WindowReaction::ReleaseCapture,
            WindowReaction::EndDrag,
            WindowReaction::FocusTerminal,
        ],
        WindowMessage::LeftButtonDoubleClick => seq![WindowReaction::FocusTerminal],
        WindowMessage::Destroy => seq![WindowReaction::Quit],
        WindowMessage::Other => seq![WindowReaction::Default],
    }
}

/// Decides how the overlay's window answers `message`, `dragging` telling
/// whether a drag is under way.
pub fn window_reactions(message: WindowMessage, dragging: bool) -> (r: Vec<WindowReaction>)
    ensures
        r@ == reactions_for(message, dragging),
{
    let r = match message {
        WindowMessage::Timer => vec![
            WindowReaction::DrainCommands,
            WindowReaction::AdvanceMomentum,
            WindowReaction::Render,
        ],
        WindowMessage::LeftButtonDown => vec![WindowReaction::BeginDrag],
        WindowMessage::MouseMove => if dragging {
            vec![WindowReaction::UpdateDrag]
        } else {
            Vec::new()
        },
        WindowMessage::LeftButtonUp => vec![
            WindowReaction::ReleaseCapture,
            WindowReaction::EndDrag,
            WindowReaction::FocusTerminal,
        ],
        WindowMessage::LeftButtonDoubleClick => vec![WindowReaction::FocusTerminal],
        WindowMessage::Destroy => vec![WindowReaction::Quit],
        WindowMessage::Other => vec![WindowReaction::Default],
    };
    assert(r@ == reactions_for(message, dragging));
    r
}

} // verus!

//! The decisions of the playback loop.
//!
//! The loop itself waits for events and draws; it lives with the windowing
//! code. What it does on each event is decided here.

use vstd::prelude::*;
use crate::animation::{next_position, Animation, FrameCycle};
use crate::geometry::{Placements, Rect};

verus! {

/// Milliseconds between two requests to advance the frame.
pub const TICK_MILLIS: u64 = 40;

/// What the loop can be told.
#[derive(Clone, Copy, Debug, PartialEq, Eq, Structural)]
pub enum Event {
    /// The window was asked to close.
    Quit,
    /// The Escape key went down.
    Escape,
    /// The ticking source asks for the next frame.
    NextFrame,
    /// Anything else.
    Other,
}

/// What the loop does next.
#[derive(Clone, Copy, Debug, PartialEq, Eq, Structural)]
pub enum Action {
    /// Raise the termination flag and leave the loop.
    Stop,
    /// Draw the frame pair of this index and present it.
    Present(usize),
    /// Nothing.
    Ignore,
}

/// What an event does to a playback at position `cursor` of `len` frames:
/// the position and the termination flag afterwards, and the action.
///
/// Once terminated, a playback stays so and stops on every event. A quit or
/// Escape terminates it. A request for the next frame presents the frame at
/// the cursor and moves the cursor one step through the cycle. Any other
/// event changes nothing.
pub open spec fn step(cursor: int, len: int, terminated: bool, event: Event) -> (int, bool, Action) {
    if terminated {
        (cursor, true, Action::Stop)
    } else {
        match event {
            Event::Quit | Event::Escape => (cursor, true, Action::Stop),
            Event::NextFrame => (next_position(cursor, len), false, Action::Present(cursor as usize)),
            Event::Other => (cursor, false, Action::Ignore),
        }
    }
}

/// Where a playback stands: the position in the cycle of frames, and whether
/// it was told to end.
pub struct PlaybackState<'a> {
    frames: FrameCycle<'a>,
    terminated: bool,
}

impl<'a> PlaybackState<'a> {
    /// The animation that is played.
    pub closed spec fn animation(&self) -> Animation {
        self.frames.animation()
    }

    /// The index of the frame that is presented next.
    pub closed spec fn cursor(&self) -> int {
        self.frames.cursor()
    }

    /// Whether the playback was told to end.
    pub closed spec fn is_terminated(&self) -> bool {
        self.terminated
    }

    /// A running playback at the first frame of `animation`.
    pub fn new(animation: &'a Animation) -> (state: Self)
        ensures
            state.animation() == *animation,
            state.cursor() == 0,
            !state.is_terminated(),
    {
        PlaybackState { frames: animation.cycle(), terminated: false }
    }

    /// Whether the playback was told to end.
    pub fn terminated(&self) -> (t: bool)
        ensures
            t == self.is_terminated(),
    {
        self.terminated
    }

    /// Takes one event and says what the loop does next.
    pub fn handle(&mut self, event: Event) -> (action: Action)
        ensures
            final(self).animation() == old(self).animation(),
            (final(self).cursor(), final(self).is_terminated(), action) == step(
                old(self).cursor(),
                old(self).animation()@.len() as int,
                old(self).is_terminated(),
                event,
            ),
            action matches Action::Present(index) ==> index < old(self).animation()@.len(),
    {
        if self.terminated {
            return Action::Stop;
        }
        match event {
            Event::Quit | Event::Escape => {
                self.terminated = true;
                Action::Stop
            },
            Event::NextFrame => {
                let index = self.frames.position();
                let _ = self.frames.next();
                Action::Present(index)
            },
            Event::Other => Action::Ignore,
        }
    }
}

/// Which texture of a frame pair a copy is drawn from.
#[derive(Clone, Copy, Debug, PartialEq, Eq, Structural)]
pub enum Layer {
    /// The frame as it is.
    Normal,
    /// The mirrored frame.
    Mirrored,
}

/// One copy of a texture onto the display.
#[derive(Clone, Copy, Debug, PartialEq, Eq, Structural)]
pub struct Blit {
    /// The texture to copy from.
    pub layer: Layer,
    /// The part of the texture to copy.
    pub source: Rect,
    /// Where on the display it goes.
    pub target: Rect,
}

/// The copies that make up one presented image, in drawing order: the whole
/// normal texture in the middle, the whole mirrored texture to its left, the
/// whole mirrored texture to its right.
pub open spec fn composition(canvas: Rect, placements: Placements) -> Seq<Blit> {
    seq![
        Blit { layer: Layer::Normal, source: canvas, target: placements.center },
        Blit { layer: Layer::Mirrored, source: canvas, target: placements.left },
        Blit { layer: Layer::Mirrored, source: canvas, target: placements.right },
    ]
}

/// Lists the copies to draw for one frame pair of an animation with the
/// given canvas.
pub fn draw_list(canvas: Rect, placements: Placements) -> (blits: Vec<Blit>)
    ensures
        blits@ == composition(canvas, placements),
{
    let mut blits: Vec<Blit> = Vec::new();
    blits.push(Blit { layer: Layer::Normal, source: canvas, target: placements.center });
    blits.push(Blit { layer: Layer::Mirrored, source: canvas, target: placements.left });
    blits.push(Blit { layer: Layer::Mirrored, source: canvas, target: placements.right });
    assert(blits@ =~= composition(canvas, placements));
    blits
}

} // verus!

//! Output to and input from the host, independent of the windowing
//! framework.
pub mod event;

use vstd::prelude::*;

use crate::emulator::state::{SaveState, ScreenState};

verus! {

/// Something that can show a frame of RGB pixels.
pub trait Graphics {
    fn draw_screen(&mut self, pixel_data: &[u8]);
}

/// The bytes of one frame: 256 by 240 pixels of three bytes each.
pub const SCREEN_BYTES: usize = 256 * 240 * 3;

/// The frame the PPU is drawing, dot by dot, and the last finished frame.
pub struct Screen {
    scanline: u32,
    dot: u32,
    screen_buffer: [u8; SCREEN_BYTES],
    backup_buffer: [u8; SCREEN_BYTES],
    double_buffering: bool,
}

pub struct ScreenView {
    pub scanline: u32,
    pub dot: u32,
    pub screen_buffer: Seq<u8>,
    pub backup_buffer: Seq<u8>,
    pub double_buffering: bool,
}

impl View for Screen {
    type V = ScreenView;

    closed spec fn view(&self) -> ScreenView {
        ScreenView {
            scanline: self.scanline,
            dot: self.dot,
            screen_buffer: self.screen_buffer@,
            backup_buffer: self.backup_buffer@,
            double_buffering: self.double_buffering,
        }
    }
}

/// The beam is on the screen.
pub open spec fn screen_wf(s: ScreenView) -> bool {
    &&& s.dot < 256
    &&& s.scanline < 240
    &&& s.screen_buffer.len() == SCREEN_BYTES
    &&& s.backup_buffer.len() == SCREEN_BYTES
}

/// The screen after a pixel of colour (r, g, b) is drawn at the beam: the
/// beam moves right, to the next line after 256 dots and back to the top
/// after 240 lines, where with double buffering the finished frame becomes
/// the one shown.
pub open spec fn screen_emitted(s: ScreenView, r: u8, g: u8, b: u8) -> ScreenView {
    let i = ((s.dot + s.scanline * 256) * 3) as int;
    let drawn = s.screen_buffer.update(i, r).update(i + 1, g).update(i + 2, b);
    let dot = ((s.dot + 1) % 256) as u32;
    let scanline = if dot == 0 {
        ((s.scanline + 1) % 240) as u32
    } else {
        s.scanline
    };
    if dot == 0 && scanline == 0 && s.double_buffering {
        ScreenView {
            scanline,
            dot,
            screen_buffer: s.backup_buffer,
            backup_buffer: drawn,
            double_buffering: s.double_buffering,
        }
    } else {
        ScreenView { scanline, dot, screen_buffer: drawn, ..s }
    }
}

/// The frame that is shown: the last finished one with double buffering,
/// else the one being drawn.
pub open spec fn shown_frame(s: ScreenView) -> Seq<u8> {
    if s.double_buffering {
        s.backup_buffer
    } else {
        s.screen_buffer
    }
}

impl Screen {
    pub fn new() -> (screen: Screen)
        ensures
            screen@ == (ScreenView {
                scanline: 0,
                dot: 0,
                screen_buffer: Seq::new(SCREEN_BYTES as nat, |i: int| 0u8),
                backup_buffer: Seq::new(SCREEN_BYTES as nat, |i: int| 0u8),
                double_buffering: true,
            }),
            screen_wf(screen@),
    {
        let screen = Screen {
            scanline: 0,
            dot: 0,
            screen_buffer: [0u8; SCREEN_BYTES],
            backup_buffer: [0u8; SCREEN_BYTES],
            double_buffering: true,
        };
        assert(screen@.screen_buffer =~= Seq::new(SCREEN_BYTES as nat, |i: int| 0u8));
        assert(screen@.backup_buffer =~= Seq::new(SCREEN_BYTES as nat, |i: int| 0u8));
        screen
    }

    /// Draws one pixel, already converted from the PPU's colour to RGB.
    pub fn emit(&mut self, r: u8, g: u8, b: u8)
        requires
            screen_wf(old(self)@),
        ensures
            screen_wf(final(self)@),
            final(self)@ == screen_emitted(old(self)@, r, g, b),
    {
        let x = self.dot;
        let y = self.scanline;
        let i = ((x + y * 256) * 3) as usize;
        self.screen_buffer[i] = r;
        self.screen_buffer[i + 1] = g;
        self.screen_buffer[i + 2] = b;
        self.dot = (self.dot + 1) % 256;
        if self.dot == 0 {
            self.scanline = (self.scanline + 1) % 240;
            if self.scanline == 0 && self.double_buffering {
                // Flip the buffers.
                std::mem::swap(&mut self.screen_buffer, &mut self.backup_buffer);
            }
        }
    }

    /// Hands the shown frame to `render`.
    pub fn do_render<F: FnOnce(&[u8])>(&self, render: F)
        requires
            forall|frame: &[u8]| #[trigger] call_requires(render, (frame,)),
        ensures
            exists|frame: &[u8]|
                frame@ == shown_frame(self@) && #[trigger] call_ensures(render, (frame,), ()),
    {
        let buffer: &[u8] = if self.double_buffering {
            &self.backup_buffer
        } else {
            &self.screen_buffer
        };
        render(buffer);
    }

    pub fn set_double_buffering(&mut self, on: bool)
        ensures
            final(self)@ == (ScreenView { double_buffering: on, ..old(self)@ }),
    {
        self.double_buffering = on;
    }
}

impl SaveState<ScreenState> for Screen {
    /// Only the beam's position is saved; the frame is redrawn.
    open spec fn frozen(state: ScreenView) -> ScreenState {
        ScreenState { scanline: state.scanline, dot: state.dot }
    }

    open spec fn accepts(state: ScreenView, saved: ScreenState) -> bool {
        true
    }

    open spec fn hydrated(state: ScreenView, saved: ScreenState) -> ScreenView {
        ScreenView { scanline: saved.scanline, dot: saved.dot, ..state }
    }

    fn freeze(&mut self) -> (saved: ScreenState) {
        ScreenState { scanline: self.scanline, dot: self.dot }
    }

    fn hydrate(&mut self, saved: ScreenState) {
        self.scanline = saved.scanline;
        self.dot = saved.dot;
    }
}

/// Loading what was saved puts the beam back where it was.
pub proof fn law_screen_state_round_trip(s: ScreenView)
    ensures
        <Screen as SaveState<ScreenState>>::hydrated(
            s,
            <Screen as SaveState<ScreenState>>::frozen(s),
        ) == s,
{
}

} // verus!

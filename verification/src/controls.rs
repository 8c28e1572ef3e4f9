use vstd::prelude::*;

verus! {

/// Number of colour states that click waves cycle through.
pub const PALETTE_LEN: usize = 4;

/// The colour state that follows state `i`.
pub open spec fn next_palette(i: int) -> int {
    (i + 1) % (PALETTE_LEN as int)
}

/// The colour state that follows state `index`, wrapping after the last.
pub fn next_palette_index(index: usize) -> (r: usize)
    requires
        index < PALETTE_LEN,
    ensures
        r == next_palette(index as int),
        index + 1 < PALETTE_LEN ==> r == index + 1,
        index + 1 == PALETTE_LEN ==> r == 0,
        r < PALETTE_LEN,
{
    (index + 1) % PALETTE_LEN
}

/// Cycling is a round: every state differs from the next one, and
/// `PALETTE_LEN` steps lead back to where they started.
pub proof fn lemma_palette_round(i: int)
    requires
        0 <= i < PALETTE_LEN,
    ensures
        i + 1 < PALETTE_LEN ==> next_palette(i) == i + 1,
        i + 1 == PALETTE_LEN ==> next_palette(i) == 0,
        0 <= next_palette(i) < PALETTE_LEN,
        next_palette(i) != i,
        next_palette(next_palette(next_palette(next_palette(i)))) == i,
{
}

/// Window input, reduced to what the controls decide on.
#[derive(Clone, Copy, Debug, PartialEq, Eq, Structural)]
pub enum WindowInput {
    CloseRequested,
    Key { pressed: bool, escape: bool },
    Resized { width: u32, height: u32 },
    ScaleFactorChanged,
    CursorMoved,
    CursorLeft,
    LeftButton { pressed: bool },
    OtherButton,
    RedrawRequested,
    Other,
}

/// What the window loop does in answer to an input.
#[derive(Clone, Copy, Debug, PartialEq, Eq, Structural)]
pub enum Response {
    /// Leave the event loop.
    Exit,
    /// Resize the surface to the given size.
    Resize { width: u32, height: u32 },
    /// Resize the surface to the window's current inner size.
    ResizeToWindow,
    /// Record the cursor; turn the camera by its motion when `rotate` holds.
    TrackCursor { rotate: bool },
    /// Forget the cursor's position.
    ClearHover,
    /// Send out a click wave in colour state `palette`.
    SpawnWave { palette: usize },
    /// Advance the animation and draw a frame.
    Frame,
    /// Nothing to do.
    Nothing,
}

/// The controls' state as the contracts see it.
pub struct ControlsView {
    pub palette: usize,
    pub dragging: bool,
    pub hovered: bool,
}

/// The controls' next state and response for one input.
pub open spec fn respond(s: ControlsView, input: WindowInput) -> (ControlsView, Response) {
    match input {
        WindowInput::CloseRequested => (s, Response::Exit),
        WindowInput::Key { pressed, escape } => {
            if pressed && escape {
                (s, Response::Exit)
            } else {
                (s, Response::Nothing)
            }
        },
        WindowInput::Resized { width, height } => (s, Response::Resize { width, height }),
        WindowInput::ScaleFactorChanged => (s, Response::ResizeToWindow),
        WindowInput::CursorMoved => (
            ControlsView { hovered: true, ..s },
            Response::TrackCursor { rotate: s.dragging },
        ),
        WindowInput::CursorLeft => (ControlsView { hovered: false, ..s }, Response::ClearHover),
        WindowInput::LeftButton { pressed } => {
            if pressed {
                let p = next_palette(s.palette as int) as usize;
                (
                    ControlsView { palette: p, dragging: true, hovered: s.hovered },
                    Response::SpawnWave { palette: p },
                )
            } else {
                (ControlsView { dragging: false, ..s }, Response::Nothing)
            }
        },
        WindowInput::OtherButton => (s, Response::Nothing),
        WindowInput::RedrawRequested => (s, Response::Frame),
        WindowInput::Other => (s, Response::Nothing),
    }
}

/// The loop is left only on a close request or on a press of Escape; any
/// other key input, a release of Escape included, does nothing and changes
/// nothing.
pub proof fn lemma_exit_only_on_close_or_escape(s: ControlsView, input: WindowInput)
    ensures
        (respond(s, input).1 == Response::Exit) <==> (input == WindowInput::CloseRequested
            || input == (WindowInput::Key { pressed: true, escape: true })),
        (input is Key) ==> respond(s, input).0 == s,
        (input is Key) && input != (WindowInput::Key { pressed: true, escape: true }) ==> respond(
            s,
            input,
        ).1 == Response::Nothing,
{
}

/// Only cursor and left-button input change the state; a left press moves
/// to the next colour state and sends the wave in that colour, and the
/// colour state changes on nothing else.
pub proof fn lemma_state_changes(s: ControlsView, input: WindowInput)
    requires
        s.palette < PALETTE_LEN,
    ensures
        !(input is CursorMoved || input is CursorLeft || input is LeftButton) ==> respond(
            s,
            input,
        ).0 == s,
        input == (WindowInput::LeftButton { pressed: true }) ==> respond(s, input).0.palette == (
        s.palette + 1) % 4,
        input == (WindowInput::LeftButton { pressed: true }) ==> respond(s, input).1 == (
        Response::SpawnWave { palette: respond(s, input).0.palette }),
        input != (WindowInput::LeftButton { pressed: true }) ==> respond(s, input).0.palette
            == s.palette,
        (input is CursorMoved) ==> respond(s, input).1 == (Response::TrackCursor {
            rotate: s.dragging,
        }),
{
}

/// Interaction state: the current colour state, whether the left button
/// drags the camera, and whether the cursor is over the window.
pub struct Controls {
    palette: usize,
    dragging: bool,
    hovered: bool,
}

impl View for Controls {
    type V = ControlsView;

    closed spec fn view(&self) -> ControlsView {
        ControlsView { palette: self.palette, dragging: self.dragging, hovered: self.hovered }
    }
}

impl Controls {
    #[verifier::type_invariant]
    spec fn palette_in_range(self) -> bool {
        self.palette < PALETTE_LEN
    }

    /// Colour state 0, not dragging, cursor not over the window.
    pub fn new() -> (r: Self)
        ensures
            r@.palette == 0,
            !r@.dragging,
            !r@.hovered,
    {
        Controls { palette: 0, dragging: false, hovered: false }
    }

    /// Takes one input: updates the state and says what the loop does.
    pub fn handle(&mut self, input: WindowInput) -> (r: Response)
        ensures
            (final(self)@, r) == respond(old(self)@, input),
            final(self)@.palette < PALETTE_LEN,
            (r == Response::Exit) <==> (input == WindowInput::CloseRequested || input == (
            WindowInput::Key { pressed: true, escape: true })),
            (input is Key) ==> final(self)@ == old(self)@,
            (input is Key) && input != (WindowInput::Key { pressed: true, escape: true }) ==> r
                == Response::Nothing,
            (input is Resized) ==> final(self)@ == old(self)@,
            (input is Resized) ==> r == (Response::Resize {
                width: input->Resized_width,
                height: input->Resized_height,
            }),
            input == WindowInput::ScaleFactorChanged ==> r == Response::ResizeToWindow,
            input == WindowInput::ScaleFactorChanged ==> final(self)@ == old(self)@,
            input == WindowInput::CursorMoved ==> r == (Response::TrackCursor {
                rotate: old(self)@.dragging,
            }),
            input == WindowInput::CursorMoved ==> final(self)@.hovered,
            input == WindowInput::CursorLeft ==> r == Response::ClearHover,
            input == WindowInput::CursorLeft ==> !final(self)@.hovered,
            (input is CursorMoved || input is CursorLeft) ==> final(self)@.dragging == old(
                self,
            )@.dragging,
            !(input is LeftButton) ==> final(self)@.palette == old(self)@.palette,
            !(input is CursorMoved || input is CursorLeft) ==> final(self)@.hovered == old(
                self,
            )@.hovered,
            input == (WindowInput::LeftButton { pressed: true }) ==> final(self)@.palette == (old(
                self,
            )@.palette + 1) % 4,
            input == (WindowInput::LeftButton { pressed: true }) ==> r == (Response::SpawnWave {
                palette: final(self)@.palette,
            }),
            input == (WindowInput::LeftButton { pressed: true }) ==> final(self)@.dragging,
            input == (WindowInput::LeftButton { pressed: false }) ==> r == Response::Nothing,
            input == (WindowInput::LeftButton { pressed: false }) ==> !final(self)@.dragging,
            input == (WindowInput::LeftButton { pressed: false }) ==> final(self)@.palette == old(
                self,
            )@.palette,
            input == WindowInput::OtherButton ==> r == Response::Nothing,
            input == WindowInput::OtherButton ==> final(self)@ == old(self)@,
            input == WindowInput::RedrawRequested ==> r == Response::Frame,
            input == WindowInput::RedrawRequested ==> final(self)@ == old(self)@,
            input == WindowInput::Other ==> r == Response::Nothing,
            input == WindowInput::Other ==> final(self)@ == old(self)@,
    {
        proof {
            use_type_invariant(&*self);
        }
        match input {
            WindowInput::CloseRequested => Response::Exit,
            WindowInput::Key { pressed, escape } => {
                if pressed && escape {
                    Response::Exit
                } else {
                    Response::Nothing
                }
            },
            WindowInput::Resized { width, height } => Response::Resize { width, height },
            WindowInput::ScaleFactorChanged => Response::ResizeToWindow,
            WindowInput::CursorMoved => {
                self.hovered = true;
                Response::TrackCursor { rotate: self.dragging }
            },
            WindowInput::CursorLeft => {
                self.hovered = false;
                Response::ClearHover
            },
            WindowInput::LeftButton { pressed } => {
                if pressed {
                    let p = next_palette_index(self.palette);
                    self.palette = p;
                    self.dragging = true;
                    Response::SpawnWave { palette: p }
                } else {
                    self.dragging = false;
                    Response::Nothing
                }
            },
            WindowInput::OtherButton => Response::Nothing,
            WindowInput::RedrawRequested => Response::Frame,
            WindowInput::Other => Response::Nothing,
        }
    }

    /// The current colour state.
    pub fn palette_index(&self) -> (r: usize)
        ensures
            r == self@.palette,
            r < PALETTE_LEN,
    {
        proof {
            use_type_invariant(self);
        }
        self.palette
    }

    /// Whether the left button is held down.
    pub fn dragging(&self) -> (r: bool)
        ensures
            r == self@.dragging,
    {
        self.dragging
    }

    /// Whether the cursor is over the window.
    pub fn hovered(&self) -> (r: bool)
        ensures
            r == self@.hovered,
    {
        self.hovered
    }
}

} // verus!

//! The viewer's state and what it does with one tick's input. Each tick the
//! caller samples the mouse and the keys and hands the sample to
//! `Application::tick`, which picks at most one action, changes the settings
//! as that action asks, and tells the caller what to do to the view.

use vstd::prelude::*;
use crate::grid::PixelGrid;
use crate::keys::{active_keys, first_held, key_press, step_of, Key};
use crate::render::{pixel_values, render};
use crate::settings::{
    colour_after, next_position, zoomed_iterations, ApplicationSettings, COLOUR_COUNT,
};

verus! {

/// How long the viewer pauses after a change of the colour scale, in
/// milliseconds, so that a key held down does not change it on every tick.
pub const RECOLOUR_PAUSE_MILLIS: u64 = 100;

/// The pixel that a zoom step is centred at.
#[derive(Clone, Copy, Debug, PartialEq, Eq, Structural)]
pub enum ZoomCentre {
    /// The pixel under the mouse cursor.
    Cursor,
    /// The pixel at the middle of the window.
    Middle,
}

/// What one tick does to the view.
#[derive(Clone, Copy, Debug, PartialEq, Eq, Structural)]
pub enum Action {
    /// Zoom by one step, in or out, round the given pixel.
    Zoom { centre: ZoomCentre, out: bool },
    /// Move the view one pan distance in the direction of the key.
    Shift { direction: Key },
    /// Draw the view again with the next colour scale.
    Recolour,
    /// Leave the loop.
    Quit,
    /// Nothing was asked for.
    Idle,
}

/// What the caller sampled at the start of a tick.
#[derive(Debug)]
pub struct InputSample {
    /// The left mouse button is held.
    pub mouse_left: bool,
    /// The right mouse button is held.
    pub mouse_right: bool,
    /// The position of the mouse cursor is known.
    pub cursor_known: bool,
    /// The keys that are held, in any order.
    pub keys: Vec<Key>,
}

/// What the key that won asks for.
pub open spec fn action_of_key(key: Option<Key>) -> Action {
    match key {
        Some(Key::Left) => Action::Shift { direction: Key::Left },
        Some(Key::Right) => Action::Shift { direction: Key::Right },
        Some(Key::Up) => Action::Shift { direction: Key::Up },
        Some(Key::Down) => Action::Shift { direction: Key::Down },
        Some(Key::NumPadPlus) => Action::Zoom { centre: ZoomCentre::Middle, out: false },
        Some(Key::Minus) => Action::Zoom { centre: ZoomCentre::Middle, out: true },
        Some(Key::NumPadMinus) => Action::Zoom { centre: ZoomCentre::Middle, out: true },
        Some(Key::Q) => Action::Quit,
        Some(Key::Escape) => Action::Quit,
        Some(Key::C) => Action::Recolour,
        None => Action::Idle,
    }
}

/// The one action of a tick. The left mouse button over a known cursor
/// position zooms in there; failing that, the right button zooms out there;
/// failing that, the first key held in the order of `active_keys` decides.
pub open spec fn decision(
    mouse_left: bool,
    mouse_right: bool,
    cursor_known: bool,
    held: Seq<Key>,
) -> Action {
    if mouse_left && cursor_known {
        Action::Zoom { centre: ZoomCentre::Cursor, out: false }
    } else if mouse_right && cursor_known {
        Action::Zoom { centre: ZoomCentre::Cursor, out: true }
    } else {
        action_of_key(first_held(active_keys(), held))
    }
}

/// The settings after an action: a zoom step moves the iteration cap, a
/// change of colour moves on in the colour cycle, and nothing else touches
/// them.
pub open spec fn settings_after(settings: ApplicationSettings, action: Action) -> ApplicationSettings {
    match action {
        Action::Zoom { centre, out } => ApplicationSettings {
            max_iterations: zoomed_iterations(settings.max_iterations, out),
            colour_position: settings.colour_position,
        },
        Action::Recolour => ApplicationSettings {
            max_iterations: settings.max_iterations,
            colour_position: next_position(settings.colour_position),
        },
        _ => settings,
    }
}

impl Action {
    /// Whether the view is drawn again after this action: after every one
    /// that changes the view or the colour scale.
    pub open spec fn renders_spec(&self) -> bool {
        *self is Zoom || *self is Shift || *self is Recolour
    }

    /// Whether the view is drawn again after this action. Quitting and
    /// idling draw nothing.
    pub fn renders(&self) -> (renders: bool)
        ensures
            renders == self.renders_spec(),
    {
        match self {
            Action::Zoom { .. } => true,
            Action::Shift { .. } => true,
            Action::Recolour => true,
            Action::Quit => false,
            Action::Idle => false,
        }
    }

    /// How long the caller pauses once the view is drawn again, in
    /// milliseconds: a tenth of a second after a change of the colour scale,
    /// and not at all otherwise.
    pub fn pause_millis(&self) -> (millis: u64)
        ensures
            millis == (if *self is Recolour { RECOLOUR_PAUSE_MILLIS } else { 0 }),
    {
        match self {
            Action::Recolour => RECOLOUR_PAUSE_MILLIS,
            _ => 0,
        }
    }
}

/// Picks the one action of a tick from what was sampled.
pub fn decide(input: &InputSample) -> (action: Action)
    ensures
        action == decision(input.mouse_left, input.mouse_right, input.cursor_known, input.keys@),
{
    if input.mouse_left && input.cursor_known {
        Action::Zoom { centre: ZoomCentre::Cursor, out: false }
    } else if input.mouse_right && input.cursor_known {
        Action::Zoom { centre: ZoomCentre::Cursor, out: true }
    } else {
        match key_press(&input.keys) {
            Some(Key::Left) => Action::Shift { direction: Key::Left },
            Some(Key::Right) => Action::Shift { direction: Key::Right },
            Some(Key::Up) => Action::Shift { direction: Key::Up },
            Some(Key::Down) => Action::Shift { direction: Key::Down },
            Some(Key::NumPadPlus) => Action::Zoom { centre: ZoomCentre::Middle, out: false },
            Some(Key::Minus) => Action::Zoom { centre: ZoomCentre::Middle, out: true },
            Some(Key::NumPadMinus) => Action::Zoom { centre: ZoomCentre::Middle, out: true },
            Some(Key::Q) => Action::Quit,
            Some(Key::Escape) => Action::Quit,
            Some(Key::C) => Action::Recolour,
            None => Action::Idle,
        }
    }
}

/// The state of the viewer that is made of integers: the pixel grid, the
/// settings, and the pixel buffer that is shown.
#[derive(Debug)]
pub struct Application {
    pub grid: PixelGrid,
    pub settings: ApplicationSettings,
    pub buffer: Vec<u32>,
}

impl Application {
    /// The grid is valid and the buffer holds one value for each pixel.
    pub open spec fn wf(&self) -> bool {
        &&& self.grid.wf()
        &&& self.buffer@.len() == self.grid.pixel_count()
    }

    /// The viewer at startup: the starting settings and a buffer of zeros,
    /// or `None` where the dimensions make no valid grid.
    pub fn new(width: usize, height: usize) -> (app: Option<Application>)
        ensures
            app is Some <==> width > 0 && height > 0 && width * height <= usize::MAX,
            app matches Some(a) ==> {
                &&& a.wf()
                &&& a.grid.width == width
                &&& a.grid.height == height
                &&& a.settings == ApplicationSettings::new_spec()
                &&& a.buffer@ == Seq::new((width * height) as nat, |i: int| 0u32)
            },
    {
        match PixelGrid::new(width, height) {
            Some(grid) => {
                let count = grid.len();
                let mut buffer: Vec<u32> = Vec::with_capacity(count);
                let mut index: usize = 0;
                while index < count
                    invariant
                        index <= count,
                        buffer@ == Seq::new(index as nat, |i: int| 0u32),
                    decreases count - index,
                {
                    buffer.push(0);
                    index += 1;
                    assert(buffer@ =~= Seq::new(index as nat, |i: int| 0u32));
                }
                Some(Application { grid, settings: ApplicationSettings::new(), buffer })
            },
            None => None,
        }
    }

    /// Draws the view again: overwrites the whole buffer with the pixel
    /// values of the given escape counts under the current colour scale.
    /// Where the counts are not one for each pixel of the buffer, nothing is
    /// drawn and the buffer stays as it was.
    pub fn update(&mut self, levels: &Vec<Option<u32>>) -> (drawn: bool)
        ensures
            drawn <==> levels@.len() == old(self).buffer@.len(),
            drawn ==> final(self).buffer@ == pixel_values(old(self).settings.colour_spec(), levels@),
            !drawn ==> final(self).buffer@ == old(self).buffer@,
            final(self).grid == old(self).grid,
            final(self).settings == old(self).settings,
            old(self).wf() ==> final(self).wf(),
    {
        if levels.len() == self.buffer.len() {
            self.buffer = render(self.settings.colour(), levels);
            true
        } else {
            false
        }
    }

    /// Follows a zoom step of the view with the iteration cap.
    pub fn zoom(&mut self, out: bool)
        ensures
            final(self).settings.max_iterations == zoomed_iterations(
                old(self).settings.max_iterations,
                out,
            ),
            final(self).settings.colour_position == old(self).settings.colour_position,
            final(self).grid == old(self).grid,
            final(self).buffer == old(self).buffer,
    {
        self.settings.adjust_iterations(out);
    }

    /// Moves to the next colour scale of the cycle.
    pub fn toggle_colour(&mut self)
        ensures
            final(self).settings.colour_position == next_position(
                old(self).settings.colour_position,
            ),
            final(self).settings.colour_spec() == colour_after(old(self).settings.colour_spec()),
            final(self).settings.max_iterations == old(self).settings.max_iterations,
            final(self).grid == old(self).grid,
            final(self).buffer == old(self).buffer,
    {
        self.settings.toggle_colour();
    }

    /// One tick: picks the action that the sample asks for and changes the
    /// settings as it asks. The caller then changes the view, draws it again
    /// where the action renders, and leaves the loop where it quits.
    pub fn tick(&mut self, input: &InputSample) -> (action: Action)
        ensures
            action == decision(
                input.mouse_left,
                input.mouse_right,
                input.cursor_known,
                input.keys@,
            ),
            final(self).settings == settings_after(old(self).settings, action),
            final(self).grid == old(self).grid,
            final(self).buffer == old(self).buffer,
    {
        let action = decide(input);
        match action {
            Action::Zoom { centre, out } => {
                self.zoom(out);
            },
            Action::Recolour => {
                self.toggle_colour();
            },
            _ => {},
        }
        action
    }
}

/// A tick changes the view exactly when it draws it again, and a shift is
/// always by a direction key.
pub proof fn lemma_decision_shape(
    mouse_left: bool,
    mouse_right: bool,
    cursor_known: bool,
    held: Seq<Key>,
)
    ensures
        ({
            let action = decision(mouse_left, mouse_right, cursor_known, held);
            &&& action matches Action::Shift { direction } ==> step_of(direction) != (0int, 0int)
            &&& !action.renders_spec() <==> action is Quit || action is Idle
            &&& !action.renders_spec() ==> forall|settings: ApplicationSettings|
                #[trigger] settings_after(settings, action) == settings
        }),
{
}

/// The mouse comes before the keys: with a button held over a known cursor
/// position the tick zooms there, left button first, whatever keys are held.
pub proof fn lemma_mouse_before_keys(mouse_left: bool, mouse_right: bool, held: Seq<Key>)
    requires
        mouse_left || mouse_right,
    ensures
        decision(mouse_left, mouse_right, true, held) == (Action::Zoom {
            centre: ZoomCentre::Cursor,
            out: !mouse_left,
        }),
{
}

/// Three changes of colour in a row lead back to the colour scale that they
/// started from, and leave the iteration cap alone.
pub proof fn lemma_three_recolours(settings: ApplicationSettings)
    ensures
        ({
            let after = settings_after(
                settings_after(settings_after(settings, Action::Recolour), Action::Recolour),
                Action::Recolour,
            );
            &&& after.colour_spec() == settings.colour_spec()
            &&& after.max_iterations == settings.max_iterations
            &&& after.colour_position == settings.colour_position % COLOUR_COUNT
        }),
{
}

} // verus!

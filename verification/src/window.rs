//! What a window is asked to be.

use vstd::prelude::*;

verus! {

/// Width and height of a window or of its surface, in pixels.
#[derive(Clone, Copy, Debug, PartialEq, Eq, Structural)]
pub struct WindowSize {
    pub width: usize,
    pub height: usize,
}

impl WindowSize {
    pub open spec fn spec_new(width: usize, height: usize) -> WindowSize {
        WindowSize { width, height }
    }

    #[verifier::when_used_as_spec(spec_new)]
    pub fn new(width: usize, height: usize) -> (r: WindowSize)
        ensures
            r == Self::spec_new(width, height),
    {
        WindowSize { width, height }
    }
}

/// Where the top left corner of a window lies on the screen, in pixels.
#[derive(Clone, Copy, Debug, PartialEq, Eq, Structural)]
pub struct WindowPosition {
    pub x: usize,
    pub y: usize,
}

impl WindowPosition {
    pub open spec fn spec_new(x: usize, y: usize) -> WindowPosition {
        WindowPosition { x, y }
    }

    #[verifier::when_used_as_spec(spec_new)]
    pub fn new(x: usize, y: usize) -> (r: WindowPosition)
        ensures
            r == Self::spec_new(x, y),
    {
        WindowPosition { x, y }
    }
}

/// Everything that can be asked of a window when it is made.
pub struct WindowAttributes {
    pub title: String,
    pub resizable: bool,
    pub maximised: bool,
    pub minimised: bool,
    pub focused: bool,
    pub fullscreen: bool,
    pub position: WindowPosition,
    pub size: WindowSize,
    pub max_size: Option<WindowSize>,
    pub min_size: Option<WindowSize>,
    pub surface_size: Option<WindowSize>,
    pub grabbed_cursor: bool,
    pub visible_cursor: bool,
}

impl WindowAttributes {
    /// The attributes are those of a resizable window of 640 by 480 pixels
    /// at the top left of the screen, with a visible cursor that is free
    /// to leave.
    pub open spec fn is_standard(&self) -> bool {
        &&& self.title@ == "Espresso App"@
        &&& self.resizable
        &&& !self.maximised
        &&& !self.minimised
        &&& !self.focused
        &&& !self.fullscreen
        &&& self.position == WindowPosition::spec_new(0, 0)
        &&& self.size == WindowSize::spec_new(640, 480)
        &&& self.max_size is None
        &&& self.min_size is None
        &&& self.surface_size is None
        &&& !self.grabbed_cursor
        &&& self.visible_cursor
    }

    /// A resizable window of 640 by 480 pixels at the top left of the
    /// screen, with a visible cursor that is free to leave.
    pub fn standard() -> (r: WindowAttributes)
        ensures
            r.is_standard(),
    {
        WindowAttributes {
            title: "Espresso App".to_owned(),
            resizable: true,
            maximised: false,
            minimised: false,
            focused: false,
            fullscreen: false,
            position: WindowPosition::new(0, 0),
            size: WindowSize::new(640, 480),
            max_size: None,
            min_size: None,
            surface_size: None,
            grabbed_cursor: false,
            visible_cursor: true,
        }
    }
}

impl Default for WindowAttributes {
    fn default() -> (r: WindowAttributes)
        ensures
            r.is_standard(),
    {
        WindowAttributes::standard()
    }
}

} // verus!

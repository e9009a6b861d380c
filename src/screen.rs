//! What a rendering back end offers, and the parameters it is built from.
use vstd::prelude::*;

verus! {

/// A display that the host draws the screen buffer on.
pub trait Screen {
    /// Shows what has been drawn.
    fn draw(&mut self);

    /// Sets the pixel at `(x, y)` to `color`.
    fn set_pixel(&mut self, x: i32, y: i32, color: u32);

    /// Turns every pixel off.
    fn clear(&mut self);
}

/// The size and background colour of a screen to build; the size may still be
/// missing.
#[derive(Debug, Clone, Copy, PartialEq, Eq, Structural)]
pub struct ScreenParams {
    width: Option<i32>,
    height: Option<i32>,
    clear_color: u32,
}

/// Builds a terminal screen from its parameters.
#[derive(Debug, Clone, Copy, PartialEq, Eq, Structural)]
pub struct ConsoleBuilder {
    params: ScreenParams,
}

impl ScreenParams {
    /// The width, if it was given.
    pub closed spec fn spec_width(self) -> Option<i32> {
        self.width
    }

    /// The height, if it was given.
    pub closed spec fn spec_height(self) -> Option<i32> {
        self.height
    }

    /// The background colour.
    pub closed spec fn spec_clear_color(self) -> u32 {
        self.clear_color
    }

    /// Parameters with no size and a black background.
    pub fn new() -> (r: Self)
        ensures
            r.spec_width() is None,
            r.spec_height() is None,
            r.spec_clear_color() == 0,
    {
        ScreenParams { width: None, height: None, clear_color: 0 }
    }

    /// These parameters with the width set to `width`.
    pub fn with_width(&self, width: i32) -> (r: Self)
        ensures
            r.spec_width() == Some(width),
            r.spec_height() == self.spec_height(),
            r.spec_clear_color() == self.spec_clear_color(),
    {
        ScreenParams { width: Some(width), height: self.height, clear_color: self.clear_color }
    }

    /// These parameters with the height set to `height`.
    pub fn with_height(&self, height: i32) -> (r: Self)
        ensures
            r.spec_width() == self.spec_width(),
            r.spec_height() == Some(height),
            r.spec_clear_color() == self.spec_clear_color(),
    {
        ScreenParams { width: self.width, height: Some(height), clear_color: self.clear_color }
    }

    /// These parameters with both width and height set to `dims`.
    pub fn with_dimensions(&self, dims: i32) -> (r: Self)
        ensures
            r.spec_width() == Some(dims),
            r.spec_height() == Some(dims),
            r.spec_clear_color() == self.spec_clear_color(),
    {
        ScreenParams { width: Some(dims), height: Some(dims), clear_color: self.clear_color }
    }

    /// These parameters with the background colour set to `color`.
    pub fn with_clear_color(&self, color: u32) -> (r: Self)
        ensures
            r.spec_width() == self.spec_width(),
            r.spec_height() == self.spec_height(),
            r.spec_clear_color() == color,
    {
        ScreenParams { width: self.width, height: self.height, clear_color: color }
    }

    /// A builder for a terminal screen with these parameters.
    pub fn for_console(&self) -> (r: ConsoleBuilder)
        ensures
            r.spec_params() == *self,
    {
        ConsoleBuilder { params: *self }
    }

    /// The width, if it was given.
    pub fn width(&self) -> (r: Option<i32>)
        ensures
            r == self.spec_width(),
    {
        self.width
    }

    /// The height, if it was given.
    pub fn height(&self) -> (r: Option<i32>)
        ensures
            r == self.spec_height(),
    {
        self.height
    }

    /// The background colour.
    pub fn clear_color(&self) -> (r: u32)
        ensures
            r == self.spec_clear_color(),
    {
        self.clear_color
    }
}

impl ConsoleBuilder {
    /// The parameters the screen is built from.
    pub closed spec fn spec_params(self) -> ScreenParams {
        self.params
    }

    /// The parameters the screen is built from.
    pub fn params(&self) -> (r: ScreenParams)
        ensures
            r == self.spec_params(),
    {
        self.params
    }
}

} // verus!

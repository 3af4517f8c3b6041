//! Points, sizes and rectangles in whole pixels.
use vstd::prelude::*;

verus! {

/// A point in logical pixels.
#[derive(Debug, Clone, Copy, PartialEq, Eq, Structural)]
pub struct Position {
    x: i32,
    y: i32,
}

impl View for Position {
    type V = (i32, i32);

    closed spec fn view(&self) -> (i32, i32) {
        (self.x, self.y)
    }
}

impl Position {
    pub fn new(x: i32, y: i32) -> (res: Self)
        ensures
            res@ == (x, y),
    {
        Position { x, y }
    }

    pub fn x(&self) -> (res: i32)
        ensures
            res == self@.0,
    {
        self.x
    }

    pub fn y(&self) -> (res: i32)
        ensures
            res == self@.1,
    {
        self.y
    }
}

/// A width and a height.
#[derive(Debug, Clone, Copy, PartialEq, Eq, Structural)]
pub struct Size {
    width: u32,
    height: u32,
}

impl View for Size {
    type V = (u32, u32);

    closed spec fn view(&self) -> (u32, u32) {
        (self.width, self.height)
    }
}

impl Size {
    pub fn new(width: u32, height: u32) -> (res: Self)
        ensures
            res@ == (width, height),
    {
        Size { width, height }
    }

    pub fn width(&self) -> (res: u32)
        ensures
            res == self@.0,
    {
        self.width
    }

    pub fn height(&self) -> (res: u32)
        ensures
            res == self@.1,
    {
        self.height
    }
}

/// A rectangle: its top-left corner and its size.
#[derive(Debug, Clone, Copy, PartialEq, Eq, Structural)]
pub struct Rect {
    position: Position,
    size: Size,
}

/// Abstract value of a [`Rect`].
pub struct RectView {
    pub x: i32,
    pub y: i32,
    pub width: u32,
    pub height: u32,
}

impl View for Rect {
    type V = RectView;

    closed spec fn view(&self) -> RectView {
        RectView {
            x: self.position@.0,
            y: self.position@.1,
            width: self.size@.0,
            height: self.size@.1,
        }
    }
}

impl Rect {
    pub fn new(position: Position, size: Size) -> (res: Self)
        ensures
            res@ == (RectView { x: position@.0, y: position@.1, width: size@.0, height: size@.1 }),
    {
        Rect { position, size }
    }

    pub fn position(&self) -> (res: &Position)
        ensures
            res@ == (self@.x, self@.y),
    {
        &self.position
    }

    pub fn size(&self) -> (res: &Size)
        ensures
            res@ == (self@.width, self@.height),
    {
        &self.size
    }

    pub fn x(&self) -> (res: i32)
        ensures
            res == self@.x,
    {
        self.position.x()
    }

    pub fn y(&self) -> (res: i32)
        ensures
            res == self@.y,
    {
        self.position.y()
    }

    pub fn width(&self) -> (res: u32)
        ensures
            res == self@.width,
    {
        self.size.width()
    }

    pub fn height(&self) -> (res: u32)
        ensures
            res == self@.height,
    {
        self.size.height()
    }
}

/// Width of the bar in pixels.
#[derive(Debug, Clone, Copy, PartialEq, Eq, Structural, PartialOrd, Ord)]
pub struct BarWidth(u32);

impl View for BarWidth {
    type V = u32;

    closed spec fn view(&self) -> u32 {
        self.0
    }
}

impl BarWidth {
    pub fn new(value: u32) -> (res: Self)
        ensures
            res@ == value,
    {
        BarWidth(value)
    }

    pub fn value(&self) -> (res: u32)
        ensures
            res == self@,
    {
        self.0
    }
}

} // verus!

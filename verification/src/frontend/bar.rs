//! Size bookkeeping of a bar surface: logical size, output scale, the
//! buffer size they need, and the space the bar reserves on its output.
use vstd::prelude::*;

verus! {

/// Logical width and height of a bar, and the scale of its output.
#[derive(Debug, Clone, Copy, PartialEq, Eq, Structural)]
pub struct BarState {
    pub width: u32,
    pub height: u32,
    pub scale: i32,
}

impl Default for BarState {
    fn default() -> (res: Self)
        ensures
            res == (BarState { width: 0, height: 0, scale: 0 }),
    {
        BarState { width: 0, height: 0, scale: 0 }
    }
}

/// The scale as the unsigned factor the buffer arithmetic uses.
pub open spec fn scale_factor(s: BarState) -> u32 {
    s.scale as u32
}

/// Whether the scaled sizes and the buffer's byte count fit in 32 bits.
pub open spec fn sizes_in_range(s: BarState) -> bool {
    &&& s.width * scale_factor(s) <= u32::MAX
    &&& s.height * scale_factor(s) <= u32::MAX
    &&& (s.width * scale_factor(s)) * (s.height * scale_factor(s)) * 4 <= u32::MAX
}

/// A size in physical pixels.
#[derive(Debug, Clone, Copy, PartialEq, Eq, Structural)]
pub struct PixelSize {
    pub width: u32,
    pub height: u32,
}

/// What a change of size or scale asks of the surface.
#[derive(Debug, Clone, Copy, PartialEq, Eq, Structural)]
pub enum Resize {
    /// Nothing changed.
    Unchanged,
    /// The drawn buffer is stale; when `grow_to` is set the shared-memory
    /// buffer is too small and must be recreated with that pixel size.
    Redraw { grow_to: Option<PixelSize> },
}

/// The effect of new state `s` on a surface whose shared buffer holds
/// `shm_size` bytes.
pub open spec fn redraw_for(s: BarState, shm_size: usize) -> Resize {
    let w = s.width * scale_factor(s);
    let h = s.height * scale_factor(s);
    Resize::Redraw { grow_to: if w * h * 4 > shm_size { Some(PixelSize { width: w as u32, height: h as u32 }) } else { None } }
}

impl BarState {
    /// Width in physical pixels.
    pub fn scaled_width(&self) -> (res: u32)
        requires
            self.width * scale_factor(*self) <= u32::MAX,
        ensures
            res == self.width * scale_factor(*self),
    {
        self.width * (self.scale as u32)
    }

    /// Height in physical pixels.
    pub fn scaled_height(&self) -> (res: u32)
        requires
            self.height * scale_factor(*self) <= u32::MAX,
        ensures
            res == self.height * scale_factor(*self),
    {
        self.height * (self.scale as u32)
    }

    /// Bytes of an RGBA buffer of the scaled size.
    pub fn required_size(&self) -> (res: usize)
        requires
            sizes_in_range(*self),
        ensures
            res == self.width * scale_factor(*self) * (self.height * scale_factor(*self)) * 4,
    {
        let w = self.scaled_width();
        let h = self.scaled_height();
        (w * h * 4) as usize
    }

    fn redraw(&self, shm_size: usize) -> (res: Resize)
        requires
            sizes_in_range(*self),
        ensures
            res == redraw_for(*self, shm_size),
    {
        let w = self.scaled_width();
        let h = self.scaled_height();
        let required = self.required_size();
        if required > shm_size {
            Resize::Redraw { grow_to: Some(PixelSize { width: w, height: h }) }
        } else {
            Resize::Redraw { grow_to: None }
        }
    }

    /// Sets the logical width.
    pub fn set_width(&mut self, width: u32, shm_size: usize) -> (res: Resize)
        requires
            old(self).width != width ==> sizes_in_range(BarState { width, ..*old(self) }),
        ensures
            *final(self) == (BarState { width, ..*old(self) }),
            res == if old(self).width == width {
                Resize::Unchanged
            } else {
                redraw_for(*final(self), shm_size)
            },
    {
        if self.width == width {
            return Resize::Unchanged;
        }
        self.width = width;
        self.redraw(shm_size)
    }

    /// Sets the output scale.
    pub fn set_scale(&mut self, scale: i32, shm_size: usize) -> (res: Resize)
        requires
            old(self).scale != scale ==> sizes_in_range(BarState { scale, ..*old(self) }),
        ensures
            *final(self) == (BarState { scale, ..*old(self) }),
            res == if old(self).scale == scale {
                Resize::Unchanged
            } else {
                redraw_for(*final(self), shm_size)
            },
    {
        if self.scale == scale {
            return Resize::Unchanged;
        }
        self.scale = scale;
        self.redraw(shm_size)
    }

    /// Sets the logical height.
    pub fn set_height(&mut self, height: u32, shm_size: usize) -> (res: Resize)
        requires
            old(self).height != height ==> sizes_in_range(BarState { height, ..*old(self) }),
        ensures
            *final(self) == (BarState { height, ..*old(self) }),
            res == if old(self).height == height {
                Resize::Unchanged
            } else {
                redraw_for(*final(self), shm_size)
            },
    {
        if self.height == height {
            return Resize::Unchanged;
        }
        self.height = height;
        self.redraw(shm_size)
    }
}

/// The space the bar reserves on its output: its height and its top and
/// bottom margins.
pub fn exclusive_zone(height: u32, top: i32, bottom: i32) -> (res: i32)
    requires
        i32::MIN <= (height as i32) + top <= i32::MAX,
        i32::MIN <= (height as i32) + top + bottom <= i32::MAX,
    ensures
        res == (height as i32) + top + bottom,
{
    height as i32 + top + bottom
}

} // verus!

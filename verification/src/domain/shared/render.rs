//! A frame of pixels ready to be handed to the compositor.
use vstd::prelude::*;
use crate::domain::shared::geometry::Size;

verus! {

/// Pixel bytes of a frame and the frame's size.
#[derive(Debug, Clone, PartialEq, Eq)]
pub struct RenderBuffer {
    data: Vec<u8>,
    size: Size,
}

impl RenderBuffer {
    pub closed spec fn spec_data(&self) -> Seq<u8> {
        self.data@
    }

    pub closed spec fn spec_size(&self) -> (u32, u32) {
        self.size@
    }

    pub fn new(data: Vec<u8>, size: Size) -> (res: Self)
        ensures
            res.spec_data() == data@,
            res.spec_size() == size@,
    {
        RenderBuffer { data, size }
    }

    pub fn data(&self) -> (res: &[u8])
        ensures
            res@ == self.spec_data(),
    {
        self.data.as_slice()
    }

    pub fn into_data(self) -> (res: Vec<u8>)
        ensures
            res@ == self.spec_data(),
    {
        self.data
    }

    pub fn size(&self) -> (res: &Size)
        ensures
            res@ == self.spec_size(),
    {
        &self.size
    }

    pub fn width(&self) -> (res: u32)
        ensures
            res == self.spec_size().0,
    {
        self.size.width()
    }

    pub fn height(&self) -> (res: u32)
        ensures
            res == self.spec_size().1,
    {
        self.size.height()
    }
}

} // verus!

//! The description of a preview window; opening and running it is the
//! application's part.
use vstd::prelude::*;

verus! {

/// A window's title and size in pixels.
pub struct Window {
    pub title: String,
    pub width: u32,
    pub height: u32,
}

impl Window {
    pub fn new(title: &str, width: u32, height: u32) -> (r: Window)
        ensures
            r.title@ == title@,
            r.width == width,
            r.height == height,
    {
        Window { title: title.to_owned(), width, height }
    }
}

} // verus!

//! A titled overlay that takes a share of the screen.

use crate::ui::{centered_rect, centered_strips, PopupLayout};
use vstd::prelude::*;

verus! {

/// An overlay with a title and a text, sized in hundredths of the screen.
pub struct Popup {
    pub title: String,
    pub content: String,
    pub width_percent: u16,
    pub height_percent: u16,
}

impl Popup {
    /// An empty overlay called `title` that takes 60 hundredths of the width
    /// and 40 of the height.
    pub fn new(title: &str) -> (popup: Self)
        ensures
            popup.title@ == title@,
            popup.content@ == Seq::<char>::empty(),
            popup.width_percent == 60,
            popup.height_percent == 40,
    {
        Self { title: title.to_owned(), content: String::new(), width_percent: 60, height_percent: 40 }
    }

    /// The same overlay, sized anew.
    pub fn with_size(self, width: u16, height: u16) -> (popup: Self)
        ensures
            popup.title == self.title,
            popup.content == self.content,
            popup.width_percent == width,
            popup.height_percent == height,
    {
        let mut popup = self;
        popup.width_percent = width;
        popup.height_percent = height;
        popup
    }

    /// How the overlay is cut out of the screen: centred both ways.
    pub fn layout(&self) -> (layout: PopupLayout)
        ensures
            layout.vertical@ == centered_strips(self.height_percent),
            layout.horizontal@ == centered_strips(self.width_percent),
    {
        centered_rect(self.width_percent, self.height_percent)
    }
}

} // verus!

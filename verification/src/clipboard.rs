use vstd::prelude::*;

verus! {

/// What the last cut or copy produced: nothing yet, a run of text within
/// a line, or one or more whole lines taken as a block.
pub enum ClipboardContent {
    Empty,
    Inline(String),
    Block(String),
}

/// The core-owned clipboard. Each cut or copy overwrites the previous
/// content wholesale; paste reads it without consuming it.
pub struct Clipboard {
    content: ClipboardContent,
}

impl View for Clipboard {
    type V = ClipboardContent;

    closed spec fn view(&self) -> ClipboardContent {
        self.content
    }
}

impl Clipboard {
    pub fn new() -> (r: Clipboard)
        ensures
            r@ is Empty,
    {
        Clipboard { content: ClipboardContent::Empty }
    }

    /// The most recent cut or copy, read without consuming it.
    pub fn get_content(&self) -> (r: &ClipboardContent)
        ensures
            *r == self@,
    {
        &self.content
    }

    /// Records a new cut or copy, replacing whatever was held before.
    pub fn set_content(&mut self, content: ClipboardContent)
        ensures
            final(self)@ == content,
    {
        self.content = content;
    }
}

} // verus!

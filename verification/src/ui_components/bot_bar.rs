use vstd::prelude::*;
use crate::command::Command;
use crate::geometry::Rect;
use crate::prompt::{Prompt, PromptView};

verus! {

/// The bottom bar: the prompt bar.
pub struct BotBar {
    pub prompt: Prompt,
    pub rect: Rect,
}

/// What the bottom bar holds, as values.
#[verifier::ext_equal]
pub struct BotBarView {
    pub prompt: PromptView,
    pub rect: Rect,
}

impl View for BotBar {
    type V = BotBarView;

    open spec fn view(&self) -> BotBarView {
        BotBarView { prompt: self.prompt@, rect: self.rect }
    }
}

impl BotBar {
    /// The bottom bar over `rect`, its prompt inactive in the directory
    /// `path`.
    pub fn new(path: &String, rect: Rect) -> (r: BotBar)
        ensures
            r@ == (BotBarView {
                prompt: PromptView {
                    is_active: false,
                    command: Command::NoCommand,
                    input: Seq::empty(),
                    rect: Rect { x: 0, y: 0, width: 0, height: 0 },
                    root: path@,
                    tick: 0,
                },
                rect,
            }),
    {
        BotBar { prompt: Prompt::new(path), rect }
    }

    /// Moves the bottom bar to `rect`.
    pub fn resize(&mut self, rect: Rect)
        ensures
            final(self)@ == (BotBarView { rect, ..old(self)@ }),
    {
        self.rect = rect;
    }
}

} // verus!

//! The state of an input method: the text being composed and the text ready
//! to be committed.

use vstd::prelude::*;

verus! {

/// The core of an input method.
pub struct UCore {
    pre_edit: String,
    commit_msg: String,
}

/// An input-method core as contracts see it.
pub struct UCoreState {
    /// The text being composed.
    pub pre_edit: Seq<char>,
    /// The text waiting to be committed.
    pub commit_msg: Seq<char>,
}

impl View for UCore {
    type V = UCoreState;

    closed spec fn view(&self) -> UCoreState {
        UCoreState { pre_edit: self.pre_edit@, commit_msg: self.commit_msg@ }
    }
}

impl UCore {
    /// A core with nothing composed and nothing to commit.
    pub fn new() -> (core: UCore)
        ensures
            core@ == (UCoreState { pre_edit: Seq::empty(), commit_msg: Seq::empty() }),
    {
        UCore { pre_edit: String::new(), commit_msg: String::new() }
    }

    /// Takes a key event. No key changes the composition yet.
    pub fn process_key(&mut self, key_val: u8, modifiers: u8)
        ensures
            final(self)@ == old(self)@,
    {
    }

    /// The text being composed.
    pub fn render_pre_edit(&self) -> (text: String)
        ensures
            text@ == self@.pre_edit,
    {
        self.pre_edit.clone()
    }

    /// Whether the composition is empty, so that there is nothing to show.
    pub fn get_hide(&self) -> (hide: bool)
        ensures
            hide == (self@.pre_edit.len() == 0),
    {
        self.pre_edit.as_str().is_empty()
    }

    /// Hands out the text waiting to be committed and leaves none waiting.
    pub fn commit(&mut self) -> (text: String)
        ensures
            text@ == old(self)@.commit_msg,
            final(self)@ == (UCoreState { commit_msg: Seq::empty(), ..old(self)@ }),
    {
        let mut text = String::new();
        std::mem::swap(&mut self.commit_msg, &mut text);
        text
    }

    /// Whether any text is waiting to be committed.
    pub fn should_commit(&self) -> (waiting: bool)
        ensures
            waiting == (self@.commit_msg.len() > 0),
    {
        !self.commit_msg.as_str().is_empty()
    }
}

} // verus!

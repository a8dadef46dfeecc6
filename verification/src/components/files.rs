use vstd::prelude::*;

use crate::action::Action;
use crate::components::tab::{in_front_after, FocusedTab};
use crate::key::Key;

verus! {

/// The file browser tab.
pub struct FilesWidgit {
    active: bool,
}

impl Default for FilesWidgit {
    /// A file browser that is not in front.
    fn default() -> (w: FilesWidgit)
        ensures
            !w.spec_active(),
    {
        FilesWidgit::new()
    }
}

impl FilesWidgit {
    /// Whether the file browser is in front.
    pub closed spec fn spec_active(&self) -> bool {
        self.active
    }

    /// A file browser that is not in front.
    pub fn new() -> (w: FilesWidgit)
        ensures
            !w.spec_active(),
    {
        FilesWidgit { active: false }
    }

    /// Whether the file browser is in front.
    pub fn is_active(&self) -> (b: bool)
        ensures
            b == self.spec_active(),
    {
        self.active
    }

    /// The browser reads `h`, `j`, `k` and `l` when in front, and none of
    /// them moves anything yet.
    pub fn handle_key_event(&mut self, key: Key) -> (reply: Option<Action>)
        ensures
            final(self).spec_active() == old(self).spec_active(),
            reply.is_none(),
    {
        if self.active {
            match key {
                Key::Char('h') => {},
                Key::Char('j') => {},
                Key::Char('k') => {},
                Key::Char('l') => {},
                _ => {},
            }
        }
        None
    }

    /// Comes to the front when the file tab is focused, and leaves it when
    /// another tab is; other actions change nothing.
    pub fn update(&mut self, action: &Action) -> (reply: Option<Action>)
        ensures
            reply.is_none(),
            final(self).spec_active() == in_front_after(
                FocusedTab::Files,
                *action,
                old(self).spec_active(),
            ),
    {
        match action {
            Action::Tick => {},
            Action::Render => {},
            Action::TabFocus(focus) => {
                self.active = *focus == FocusedTab::Files;
            },
            _ => {},
        }
        None
    }
}

} // verus!

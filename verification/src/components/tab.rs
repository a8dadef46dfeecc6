use vstd::prelude::*;

use crate::action::Action;
use crate::key::Key;

verus! {

/// The tab that is in front.
#[derive(Clone, Copy, Debug, PartialEq, Eq, Structural)]
pub enum FocusedTab {
    Sequencer,
    Sampler,
    Test,
    Files,
}

impl Default for FocusedTab {
    /// The audio test tab is in front when the program starts.
    fn default() -> (tab: FocusedTab)
        ensures
            tab == FocusedTab::Test,
    {
        FocusedTab::Test
    }
}

/// The tab that a key brings to the front: `0` the audio test, `1` the
/// sequencer, `2` the sampler, `3` the file browser; no other key selects one.
pub open spec fn tab_for_key(key: Key) -> Option<FocusedTab> {
    match key {
        Key::Char('0') => Some(FocusedTab::Test),
        Key::Char('1') => Some(FocusedTab::Sequencer),
        Key::Char('2') => Some(FocusedTab::Sampler),
        Key::Char('3') => Some(FocusedTab::Files),
        _ => None,
    }
}

/// Whether the widget of tab `owner` is in front after `action`, when it
/// was in front before exactly if `was`: a tab focus brings it to the front
/// if it names `owner` and sends it back otherwise; other actions leave it.
pub open spec fn in_front_after(owner: FocusedTab, action: Action, was: bool) -> bool {
    match action {
        Action::TabFocus(tab) => tab == owner,
        _ => was,
    }
}

/// Switches between the tabs on the digit keys.
pub struct TabHandler {
    focus: FocusedTab,
}

impl Default for TabHandler {
    /// A handler with the audio test tab in front.
    fn default() -> (handler: TabHandler)
        ensures
            handler.spec_focus() == FocusedTab::Test,
    {
        TabHandler::new()
    }
}

impl TabHandler {
    /// The tab that is in front.
    pub closed spec fn spec_focus(&self) -> FocusedTab {
        self.focus
    }

    /// A handler with the audio test tab in front.
    pub fn new() -> (handler: TabHandler)
        ensures
            handler.spec_focus() == FocusedTab::Test,
    {
        TabHandler { focus: FocusedTab::default() }
    }

    /// The tab that is in front.
    pub fn focus(&self) -> (tab: FocusedTab)
        ensures
            tab == self.spec_focus(),
    {
        self.focus
    }

    /// Brings the tab that `key` names to the front. Returns the message that
    /// announces the new focus to the other widgets, or `None` (and leaves the
    /// focus as it was) when the key names no tab.
    pub fn handle_key_event(&mut self, key: Key) -> (announce: Option<Action>)
        ensures
            match tab_for_key(key) {
                Some(tab) => {
                    &&& final(self).spec_focus() == tab
                    &&& announce == Some(Action::TabFocus(tab))
                },
                None => {
                    &&& final(self).spec_focus() == old(self).spec_focus()
                    &&& announce.is_none()
                },
            },
    {
        let tab = match key {
            Key::Char('0') => FocusedTab::Test,
            Key::Char('1') => FocusedTab::Sequencer,
            Key::Char('2') => FocusedTab::Sampler,
            Key::Char('3') => FocusedTab::Files,
            _ => {
                return None;
            },
        };
        self.focus = tab;
        Some(Action::TabFocus(tab))
    }

    /// The tab handler keeps no state that ticks or renders change.
    pub fn update(&mut self, action: &Action) -> (reply: Option<Action>)
        ensures
            *final(self) == *old(self),
            reply.is_none(),
    {
        match action {
            Action::Tick => {},
            Action::Render => {},
            _ => {},
        }
        None
    }
}

/// A digit key brings exactly one tab to the front: once the handler's
/// announcement has reached the widgets, the widget of the newly focused tab
/// is in front and every other widget is not, whatever was in front before.
pub proof fn lemma_focus_is_exclusive(key: Key, owner: FocusedTab, was: bool)
    requires
        tab_for_key(key) is Some,
    ensures
        in_front_after(owner, Action::TabFocus(tab_for_key(key)->0), was) <==> owner == tab_for_key(
            key,
        )->0,
{
}

/// Only the digit keys `0` to `3` switch tabs: `0` brings the audio test to
/// the front, `1` the sequencer, `2` the sampler and `3` the file browser;
/// every other key, escape and the arrows and every other character among
/// them, names no tab, so the handler announces nothing and keeps its focus.
pub proof fn lemma_only_digits_switch_tabs(key: Key)
    ensures
        tab_for_key(Key::Char('0')) == Some(FocusedTab::Test),
        tab_for_key(Key::Char('1')) == Some(FocusedTab::Sequencer),
        tab_for_key(Key::Char('2')) == Some(FocusedTab::Sampler),
        tab_for_key(Key::Char('3')) == Some(FocusedTab::Files),
        key != Key::Char('0') && key != Key::Char('1') && key != Key::Char('2') && key != Key::Char(
            '3',
        ) ==> tab_for_key(key) is None,
{
}

/// Only a tab focus moves a widget to the front or the back: after any other
/// action (a tick, a render, a resize, ...) each widget is in front exactly
/// when it was before; after a tab focus, exactly the widget of the named
/// tab is in front.
pub proof fn lemma_only_focus_moves_widgets(owner: FocusedTab, action: Action, was: bool)
    ensures
        !(action is TabFocus) ==> in_front_after(owner, action, was) == was,
        in_front_after(owner, Action::Tick, was) == was,
        in_front_after(owner, Action::Render, was) == was,
        action is TabFocus ==> (in_front_after(owner, action, was) <==> action->TabFocus_0
            == owner),
{
}

} // verus!

use vstd::prelude::*;

use crate::action::Action;
use crate::key::Key;

verus! {

/// The tab that plays a test chord through the sound card.
pub struct AudioTest {}

impl Default for AudioTest {
    /// The audio test tab.
    fn default() -> (t: AudioTest)
        ensures
            (t == AudioTest {  }),
    {
        AudioTest::new()
    }
}

impl AudioTest {
    /// The audio test tab.
    pub fn new() -> (t: AudioTest)
        ensures
            (t == AudioTest {  }),
    {
        AudioTest {  }
    }

    /// Whether the key asks for the test chord to be played: it does for
    /// `a`, and for no other key.
    pub fn handle_key_event(&mut self, key: Key) -> (play: bool)
        ensures
            play == (key == Key::Char('a')),
    {
        match key {
            Key::Char('a') => true,
            _ => false,
        }
    }

    /// The audio test keeps no state that ticks or renders change.
    pub fn update(&mut self, action: &Action) -> (reply: Option<Action>)
        ensures
            reply.is_none(),
    {
        match action {
            Action::Tick => {},
            Action::Render => {},
            _ => {},
        }
        None
    }
}

} // verus!

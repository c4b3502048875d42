//! Small state holders shared across screens.

use vstd::prelude::*;

verus! {

/// The one-line message shown at the bottom of the screen.
#[derive(Clone, Debug)]
pub struct StatusBar {
    pub message: String,
}

impl StatusBar {
    pub fn new() -> (r: StatusBar)
        ensures
            r.message@ =~= Seq::<char>::empty(),
    {
        StatusBar { message: String::new() }
    }

    pub fn set_message(&mut self, message: String)
        ensures
            final(self).message@ == message@,
    {
        self.message = message;
    }
}

} // verus!

//! What an observer that keeps the current window's title makes of a
//! notification.

use vstd::prelude::*;

verus! {

/// What a notified title means to the record of the current window.
#[derive(Debug, PartialEq, Eq)]
pub enum Observation {
    /// The title is empty; the record stays as it is.
    Empty,
    /// The title differs from the recorded one, which is handed back.
    Changed(String),
    /// The title is the recorded one.
    Unchanged,
}

/// The title of the window that has the focus, as far as it is known.
pub struct CurrentWindow {
    title: String,
}

impl View for CurrentWindow {
    type V = Seq<char>;

    closed spec fn view(&self) -> Seq<char> {
        self.title@
    }
}

impl CurrentWindow {
    /// A record that knows no window yet: its title is empty.
    pub fn new() -> (record: Self)
        ensures
            record@ == Seq::<char>::empty(),
    {
        CurrentWindow { title: String::new() }
    }

    /// The recorded title.
    pub fn title(&self) -> (title: &String)
        ensures
            title@ == self@,
    {
        &self.title
    }

    /// Takes a notified title. An empty one is reported and dropped; one that
    /// differs from the record replaces it; the recorded one changes nothing.
    pub fn observe(&mut self, title: String) -> (observation: Observation)
        ensures
            title@.len() == 0 ==> observation == Observation::Empty && final(self)@ == old(self)@,
            title@.len() > 0 && title@ != old(self)@ ==> final(self)@ == title@ && (
            observation matches Observation::Changed(previous) && previous@ == old(self)@),
            title@.len() > 0 && title@ == old(self)@ ==> observation == Observation::Unchanged
                && final(self)@ == old(self)@,
    {
        if title.as_str().is_empty() {
            Observation::Empty
        } else if self.title != title {
            let previous = self.title.clone();
            self.title = title;
            Observation::Changed(previous)
        } else {
            Observation::Unchanged
        }
    }
}

} // verus!

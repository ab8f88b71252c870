//! The status channel: a one-way display surface for externally supplied
//! status text, backed by a single disabled menu entry.
//!
//! Startup ordering is not guaranteed: a status update may arrive before
//! the menu (and with it the status entry) exists. Such an update is a
//! silent no-op, and attaching the entry later does not retroactively
//! apply missed text.

use vstd::prelude::*;
use vstd::string::StringExecFns;

verus! {

/// The status entry's text, or nothing while the entry does not exist yet.
pub struct StatusChannel {
    entry: Option<String>,
}

impl View for StatusChannel {
    type V = Option<Seq<char>>;

    closed spec fn view(&self) -> Option<Seq<char>> {
        if self.entry is Some {
            Some(self.entry->0@)
        } else {
            None
        }
    }
}

impl StatusChannel {
    /// The channel before the menu exists: no entry, no text.
    pub fn new() -> (r: StatusChannel)
        ensures
            r@ is None,
    {
        StatusChannel { entry: None }
    }

    /// Attaches the status entry with its initial text. Updates missed
    /// before this point stay missed.
    pub fn attach(&mut self, initial: &str)
        ensures
            final(self)@ == Some(initial@),
    {
        self.entry = Some(String::from_str(initial));
    }

    /// Sets the entry's display text and reports whether the entry exists;
    /// before the entry exists this is a silent no-op, never an error.
    /// The shell forwards an applied text to the native menu entry.
    pub fn update(&mut self, text: &str) -> (applied: bool)
        ensures
            old(self)@ is Some ==> applied && final(self)@ == Some(text@),
            old(self)@ is None ==> !applied && final(self)@ is None,
    {
        match self.entry {
            Option::Some(_) => {
                self.entry = Some(String::from_str(text));
                true
            },
            Option::None => false,
        }
    }

    /// The entry's current text, or nothing while the entry does not
    /// exist.
    pub fn current_text(&self) -> (r: Option<&String>)
        ensures
            match r {
                Some(s) => self@ == Some(s@),
                None => self@ is None,
            },
    {
        match self.entry {
            Option::Some(ref s) => Some(s),
            Option::None => None,
        }
    }
}

} // verus!

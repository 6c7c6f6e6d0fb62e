use vstd::prelude::*;

verus! {

/// The main window's state: a single placeholder byte. No window logic
/// exists yet; the byte is the slot that future state will replace.
///
/// The process-wide accessor that shares one `MainWnd` across threads is
/// provided by the embedding application; this type is the value it
/// guards.
#[derive(Clone, Copy, PartialEq, Eq, Structural, Debug)]
pub struct MainWnd {
    /// Placeholder window state; nothing reads it yet.
    pub inner: u8,
}

impl MainWnd {
    /// A fresh main window with its state byte cleared.
    pub fn new() -> (w: MainWnd)
        ensures
            w.inner == 0,
    {
        MainWnd { inner: 0 }
    }

    /// One-time setup hook. The window has nothing to set up yet, so
    /// the state is left untouched.
    pub fn init(&self) {
    }
}

} // verus!

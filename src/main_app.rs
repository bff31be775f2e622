use vstd::prelude::*;

verus! {

/// The launcher window that starts a capture session; it holds no state.
#[derive(Clone, Copy, Debug, PartialEq, Eq, Structural)]
pub struct MainApp {}

impl Default for MainApp {
    fn default() -> (r: MainApp)
        ensures
            r == (MainApp {}),
    {
        MainApp {}
    }
}

} // verus!

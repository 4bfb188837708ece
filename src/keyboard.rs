use vstd::prelude::*;

verus! {

/// The keys the application reacts to, as the windowing layer reports them.
#[derive(Debug, Clone, Copy, PartialEq, Eq, Structural)]
pub enum KeyCode {
    KeyLeft,
    KeyRight,
    KeyUp,
    KeyDown,
    KeyW,
    KeyS,
    KeyA,
    KeyD,
    KeySpace,
    KeyControl,
    KeyF2,
    Key1,
    Key2,
    Key3,
    Key4,
    Key5,
    Key6,
    Key7,
    Key8,
    Key9,
    KeyEscape,
    KeyY,
    KeyN,
}

} // verus!

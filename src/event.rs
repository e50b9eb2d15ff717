use vstd::prelude::*;

verus! {

/// One transition of a key or a button: it went down, or it came up.
#[derive(Debug, Clone, Copy, PartialEq, Eq, Hash)]
pub enum KeyState {
    Down,
    Up,
}

/// A key or a button, named by the virtual-key code that the OS gives it.
#[derive(Debug, Clone, Copy, PartialEq, Eq, Hash)]
pub enum Input {
    Mouse(i32),
    KeyBoard(i32),
}

/// What travels from the capture thread to a consumer.
pub type Event = (Input, KeyState);

/// Display names of the mouse buttons, by virtual-key code.
pub open spec fn mouse_name_spec(vk: i32) -> Option<Seq<char>> {
    if vk == 1 {
        Some("MOUSE_LBUTTON"@)
    } else if vk == 2 {
        Some("MOUSE_RBUTTON"@)
    } else if vk == 3 {
        Some("CANCEL"@)
    } else if vk == 4 {
        Some("MOUSE_MBUTTON"@)
    } else if vk == 5 {
        Some("MOUSE_XBUTTON1"@)
    } else if vk == 6 {
        Some("MOUSE_XBUTTON2"@)
    } else {
        None
    }
}

/// The display name of a mouse button's virtual-key code, where it has one.
pub fn mouse_name(vk: i32) -> (r: Option<&'static str>)
    ensures
        r.is_some() == mouse_name_spec(vk).is_some(),
        r.is_some() ==> r.unwrap()@ == mouse_name_spec(vk).unwrap(),
{
    if vk == 1 {
        Some("MOUSE_LBUTTON")
    } else if vk == 2 {
        Some("MOUSE_RBUTTON")
    } else if vk == 3 {
        Some("CANCEL")
    } else if vk == 4 {
        Some("MOUSE_MBUTTON")
    } else if vk == 5 {
        Some("MOUSE_XBUTTON1")
    } else if vk == 6 {
        Some("MOUSE_XBUTTON2")
    } else {
        None
    }
}

} // verus!

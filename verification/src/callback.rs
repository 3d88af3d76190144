//! Event-driven communication: callback return codes, raw argument
//! conversions, and the bookkeeping of closure slots.
//!
//! The binding parks each boxed closure under a reserved attribute named
//! `_IUPRUST_FBOX_<CALLBACK>`; releasing them when an element dies is the
//! bookkeeping modelled by [`drop_callbacks`].

use vstd::prelude::*;
use vstd::utf8::char_u32_cast;
use crate::element::Elem;

verus! {

/// The raw code for a default callback return.
pub const IUP_DEFAULT: i32 = -2;

/// The raw code asking to close the enclosing dialog.
pub const IUP_CLOSE: i32 = -3;

/// The raw code asking to ignore the event.
pub const IUP_IGNORE: i32 = -1;

/// The raw code asking to continue propagation.
pub const IUP_CONTINUE: i32 = -4;

/// Returned from a callback to tell the toolkit what to do next.
#[derive(Copy, Clone, PartialEq, Eq)]
pub enum CallbackReturn {
    /// Does nothing special when returned.
    Default,
    /// Closes the dialog containing the element the callback ran on.
    Close,
    /// Callback specific; usually discards the event.
    Ignore,
    /// Callback specific; usually propagates the event further.
    Continue,
    /// Replaces the character being processed, where the callback allows it.
    Char(char),
}

impl CallbackReturn {
    /// The raw code this return value stands for.
    pub open spec fn raw_spec(self) -> int {
        match self {
            CallbackReturn::Close => IUP_CLOSE as int,
            CallbackReturn::Default => IUP_DEFAULT as int,
            CallbackReturn::Ignore => IUP_IGNORE as int,
            CallbackReturn::Continue => IUP_CONTINUE as int,
            CallbackReturn::Char(c) => c as int,
        }
    }

    /// Encodes this return value as the raw code handed back to the toolkit.
    pub fn to_raw(self) -> (r: i32)
        ensures
            r as int == self.raw_spec(),
    {
        match self {
            CallbackReturn::Close => IUP_CLOSE,
            CallbackReturn::Default => IUP_DEFAULT,
            CallbackReturn::Ignore => IUP_IGNORE,
            CallbackReturn::Continue => IUP_CONTINUE,
            CallbackReturn::Char(c) => (c as u32) as i32,
        }
    }
}

impl From<()> for CallbackReturn {
    /// Lets a callback return nothing and mean the default reaction.
    fn from(v: ()) -> (r: CallbackReturn) {
        CallbackReturn::Default
    }
}

impl vstd::std_specs::convert::FromSpecImpl<()> for CallbackReturn {
    open spec fn obeys_from_spec() -> bool {
        true
    }

    open spec fn from_spec(v: ()) -> CallbackReturn {
        CallbackReturn::Default
    }
}

/// Conversion from a raw toolkit value into its typed counterpart.
///
/// `valid_raw` delimits the raw values the toolkit can hand over; on those,
/// `into_rust` returns exactly `into_spec`.
pub trait IntoRust<T>: Sized {
    spec fn valid_raw(self) -> bool;

    spec fn into_spec(self) -> T;

    fn into_rust(self) -> (r: T)
        requires
            self.valid_raw(),
        ensures
            r == self.into_spec(),
    ;
}

impl IntoRust<i32> for i32 {
    open spec fn valid_raw(self) -> bool {
        true
    }

    open spec fn into_spec(self) -> i32 {
        self
    }

    fn into_rust(self) -> (r: i32) {
        self
    }
}

impl IntoRust<usize> for i32 {
    open spec fn valid_raw(self) -> bool {
        self >= 0
    }

    open spec fn into_spec(self) -> usize {
        self as usize
    }

    fn into_rust(self) -> (r: usize) {
        self as usize
    }
}

impl IntoRust<bool> for i32 {
    open spec fn valid_raw(self) -> bool {
        true
    }

    open spec fn into_spec(self) -> bool {
        self != 0
    }

    fn into_rust(self) -> (r: bool) {
        self != 0
    }
}

/// The raw code of the left mouse button; the others follow in order.
pub const IUP_BUTTON1: i32 = 49;

pub const IUP_BUTTON2: i32 = 50;

pub const IUP_BUTTON3: i32 = 51;

pub const IUP_BUTTON4: i32 = 52;

pub const IUP_BUTTON5: i32 = 53;

/// Mouse buttons.
#[derive(Debug, Copy, Clone, Eq, PartialEq)]
pub enum MouseButton {
    /// Left mouse button.
    Button1,
    /// Middle mouse button.
    Button2,
    /// Right mouse button.
    Button3,
    /// Additional mouse button.
    Button4,
    /// Additional mouse button.
    Button5,
}

impl MouseButton {
    /// The button with the given number, starting at 1 for the left button.
    pub fn from_id(id: i32) -> (r: MouseButton)
        requires
            1 <= id <= 5,
        ensures
            id == 1 ==> r is Button1,
            id == 2 ==> r is Button2,
            id == 3 ==> r is Button3,
            id == 4 ==> r is Button4,
            id == 5 ==> r is Button5,
    {
        match id {
            1 => MouseButton::Button1,
            2 => MouseButton::Button2,
            3 => MouseButton::Button3,
            4 => MouseButton::Button4,
            _ => MouseButton::Button5,
        }
    }
}

impl IntoRust<MouseButton> for i32 {
    open spec fn valid_raw(self) -> bool {
        IUP_BUTTON1 <= self <= IUP_BUTTON5
    }

    open spec fn into_spec(self) -> MouseButton {
        if self == IUP_BUTTON1 {
            MouseButton::Button1
        } else if self == IUP_BUTTON2 {
            MouseButton::Button2
        } else if self == IUP_BUTTON3 {
            MouseButton::Button3
        } else if self == IUP_BUTTON4 {
            MouseButton::Button4
        } else {
            MouseButton::Button5
        }
    }

    fn into_rust(self) -> (r: MouseButton) {
        if self == IUP_BUTTON1 {
            MouseButton::Button1
        } else if self == IUP_BUTTON2 {
            MouseButton::Button2
        } else if self == IUP_BUTTON3 {
            MouseButton::Button3
        } else if self == IUP_BUTTON4 {
            MouseButton::Button4
        } else {
            MouseButton::Button5
        }
    }
}

/// What happened to the mouse button in a button callback.
#[derive(Debug, Copy, Clone, Eq, PartialEq)]
pub enum MouseButtonState {
    Released,
    Pressed,
}

impl IntoRust<MouseButtonState> for i32 {
    open spec fn valid_raw(self) -> bool {
        true
    }

    open spec fn into_spec(self) -> MouseButtonState {
        if self != 0 {
            MouseButtonState::Pressed
        } else {
            MouseButtonState::Released
        }
    }

    fn into_rust(self) -> (r: MouseButtonState) {
        if self != 0 {
            MouseButtonState::Pressed
        } else {
            MouseButtonState::Released
        }
    }
}

/// The character with the given scalar value, if the value is one.
///
/// Relies on `char::from_u32`: `Some` exactly when the value is neither a
/// surrogate nor beyond the largest character, and the character then has
/// that value.
#[verifier::external_body]
fn char_from_u32(v: u32) -> (r: Option<char>)
    ensures
        r matches Some(c) ==> c as u32 == v,
        (v < 0xD800 || (0xE000 <= v && v <= 0x10FFFF)) ==> r is Some,
{
    char::from_u32(v)
}

impl IntoRust<Option<char>> for i32 {
    open spec fn valid_raw(self) -> bool {
        self == 0 || (0 < self && ((self as int) < 0xD800 || (0xE000 <= self as int
            && self as int <= 0x10FFFF)))
    }

    open spec fn into_spec(self) -> Option<char> {
        if self == 0 {
            None
        } else {
            Some((self as u32) as char)
        }
    }

    fn into_rust(self) -> (r: Option<char>) {
        if self == 0 {
            None
        } else {
            let c = char_from_u32(self as u32);
            let x = c.unwrap();
            proof {
                char_u32_cast(x, self as u32);
            }
            Some(x)
        }
    }
}

impl IntoRust<crate::control::ListItemState> for i32 {
    open spec fn valid_raw(self) -> bool {
        true
    }

    open spec fn into_spec(self) -> crate::control::ListItemState {
        if self != 0 {
            crate::control::ListItemState::Selected
        } else {
            crate::control::ListItemState::Deselected
        }
    }

    fn into_rust(self) -> (r: crate::control::ListItemState) {
        if self != 0 {
            crate::control::ListItemState::Selected
        } else {
            crate::control::ListItemState::Deselected
        }
    }
}

/// The state of mouse buttons and modifier keys during an event, as the
/// toolkit reports it: a character buffer whose positions carry one flag
/// each.
pub struct KeyStates {
    pub raw: Vec<u8>,
}

impl KeyStates {
    /// The reported buffer always spans the ten flag positions.
    pub open spec fn wf(&self) -> bool {
        self.raw@.len() >= 10
    }

    /// Wraps a reported status buffer.
    pub fn new(raw: Vec<u8>) -> (r: KeyStates)
        requires
            raw@.len() >= 10,
        ensures
            r.wf(),
            r.raw@ == raw@,
    {
        KeyStates { raw }
    }

    /// Whether a SHIFT key was held.
    pub fn is_shift(&self) -> (r: bool)
        requires
            self.wf(),
        ensures
            r == (self.raw@[0] == 'S' as u8),
    {
        self.raw[0] == 'S' as u8
    }

    /// Whether a CONTROL key was held.
    pub fn is_control(&self) -> (r: bool)
        requires
            self.wf(),
        ensures
            r == (self.raw@[1] == 'C' as u8),
    {
        self.raw[1] == 'C' as u8
    }

    /// Whether an ALT key was held.
    pub fn is_alt(&self) -> (r: bool)
        requires
            self.wf(),
        ensures
            r == (self.raw@[6] == 'A' as u8),
    {
        self.raw[6] == 'A' as u8
    }

    /// Whether the system key (Windows or Apple key) was held.
    pub fn is_sys(&self) -> (r: bool)
        requires
            self.wf(),
        ensures
            r == (self.raw@[7] == 'Y' as u8),
    {
        self.raw[7] == 'Y' as u8
    }

    /// Whether the button of the callback was doubly pressed.
    pub fn is_double(&self) -> (r: bool)
        requires
            self.wf(),
        ensures
            r == (self.raw@[5] == 'D' as u8),
    {
        self.raw[5] == 'D' as u8
    }

    /// Whether the left mouse button was held.
    pub fn is_button1(&self) -> (r: bool)
        requires
            self.wf(),
        ensures
            r == (self.raw@[2] == '1' as u8),
    {
        self.raw[2] == '1' as u8
    }

    /// Whether the middle mouse button was held.
    pub fn is_button2(&self) -> (r: bool)
        requires
            self.wf(),
        ensures
            r == (self.raw@[3] == '2' as u8),
    {
        self.raw[3] == '2' as u8
    }

    /// Whether the right mouse button was held.
    pub fn is_button3(&self) -> (r: bool)
        requires
            self.wf(),
        ensures
            r == (self.raw@[4] == '3' as u8),
    {
        self.raw[4] == '3' as u8
    }

    /// Whether the first additional mouse button was held.
    pub fn is_button4(&self) -> (r: bool)
        requires
            self.wf(),
        ensures
            r == (self.raw@[8] == '4' as u8),
    {
        self.raw[8] == '4' as u8
    }

    /// Whether the second additional mouse button was held.
    pub fn is_button5(&self) -> (r: bool)
        requires
            self.wf(),
        ensures
            r == (self.raw@[9] == '5' as u8),
    {
        self.raw[9] == '5' as u8
    }
}

/// The reserved attribute under which a callback's boxed closure is parked.
pub open spec fn fbox_of(cb: Seq<char>) -> Seq<char> {
    "_IUPRUST_FBOX_"@ + cb
}

/// The reserved attribute name for a callback slot.
pub fn fbox_attr_name(cb: &str) -> (r: String)
    ensures
        r@ == fbox_of(cb@),
{
    let p = String::from_str("_IUPRUST_FBOX_");
    p.concat(cb)
}

/// Records that a closure is attached to the named callback slot.
pub fn set_callback(e: &mut Elem, cb: &str)
    requires
        old(e).wf(),
    ensures
        final(e).wf(),
        final(e).abs().attrs == old(e).abs().attrs.insert(fbox_of(cb@), "BOXED"@),
        final(e).abs().mapped == old(e).abs().mapped,
{
    let name = fbox_attr_name(cb);
    e.set_attrib(name.as_str(), "BOXED");
}

/// Releases the named callback slot, reporting whether one was attached.
pub fn remove_callback(e: &mut Elem, cb: &str) -> (had: bool)
    requires
        old(e).wf(),
    ensures
        final(e).wf(),
        had == old(e).abs().attrs.dom().contains(fbox_of(cb@)),
        final(e).abs().attrs == old(e).abs().attrs.remove(fbox_of(cb@)),
        final(e).abs().mapped == old(e).abs().mapped,
{
    let name = fbox_attr_name(cb);
    let had = e.does_attrib_exist(name.as_str());
    e.clear_attrib(name.as_str());
    had
}

/// Every callback slot the binding may have parked a closure under.
pub open spec fn callback_slot_names() -> Seq<Seq<char>> {
    seq![
        "BUTTON_CB"@,
        "MOTION_CB"@,
        "ACTION"@,
        "ACTION_CB"@,
        "LDESTROY_CB"@,
        "MAP_CB"@,
        "UNMAP_CB"@,
        "GETFOCUS_CB"@,
        "KILLFOCUS_CB"@,
        "ENTERWINDOW_CB"@,
        "LEAVEWINDOW_CB"@,
        "HELP_CB"@,
        "CARET_CB"@,
        "SPIN_CB"@,
        "VALUECHANGED_CB"@,
        "DROPFILES_CB"@,
        "CLOSE_CB"@,
        "MOVE_CB"@,
        "RESIZE_CB"@,
        "COPYDATA_CB"@,
        "MDIACTIVATE_CB"@,
        "SHOW_CB"@,
        "TRAYCLICK_CB"@,
    ]
}

/// Whether an attribute name is a parked closure of one of the known slots.
pub open spec fn is_slot_key(k: Seq<char>) -> bool {
    exists|i: int|
        0 <= i < callback_slot_names().len() && k == fbox_of(#[trigger] callback_slot_names()[i])
}

fn slot_name(i: usize) -> (r: &'static str)
    requires
        i < 23,
    ensures
        r@ == callback_slot_names()[i as int],
{
    match i {
        0 => "BUTTON_CB",
        1 => "MOTION_CB",
        2 => "ACTION",
        3 => "ACTION_CB",
        4 => "LDESTROY_CB",
        5 => "MAP_CB",
        6 => "UNMAP_CB",
        7 => "GETFOCUS_CB",
        8 => "KILLFOCUS_CB",
        9 => "ENTERWINDOW_CB",
        10 => "LEAVEWINDOW_CB",
        11 => "HELP_CB",
        12 => "CARET_CB",
        13 => "SPIN_CB",
        14 => "VALUECHANGED_CB",
        15 => "DROPFILES_CB",
        16 => "CLOSE_CB",
        17 => "MOVE_CB",
        18 => "RESIZE_CB",
        19 => "COPYDATA_CB",
        20 => "MDIACTIVATE_CB",
        21 => "SHOW_CB",
        _ => "TRAYCLICK_CB",
    }
}

/// Releases every callback slot of an element.  Done right before the
/// element is destroyed, so no parked closure outlives it.
pub fn drop_callbacks(e: &mut Elem)
    requires
        old(e).wf(),
    ensures
        final(e).wf(),
        final(e).abs().mapped == old(e).abs().mapped,
        forall|k: Seq<char>|
            final(e).abs().attrs.dom().contains(k) <==> (old(e).abs().attrs.dom().contains(k)
                && !is_slot_key(k)),
        forall|k: Seq<char>|
            final(e).abs().attrs.dom().contains(k) ==> final(e).abs().attrs[k]
                == old(e).abs().attrs[k],
{
    let mut i: usize = 0;
    while i < 23
        invariant
            i <= 23,
            e.wf(),
            e.abs().mapped == old(e).abs().mapped,
            forall|k: Seq<char>|
                e.abs().attrs.dom().contains(k) <==> (old(e).abs().attrs.dom().contains(k)
                    && !(exists|j: int|
                        0 <= j < i && k == fbox_of(#[trigger] callback_slot_names()[j]))),
            forall|k: Seq<char>|
                e.abs().attrs.dom().contains(k) ==> e.abs().attrs[k] == old(e).abs().attrs[k],
        decreases 23 - i,
    {
        let name = fbox_attr_name(slot_name(i));
        e.clear_attrib(name.as_str());
        i = i + 1;
    }
}

} // verus!

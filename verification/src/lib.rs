//! A verified model of an IUP-style GUI binding layer.
//!
//! The native toolkit keeps every piece of widget state in a string-keyed
//! attribute bag attached to each element.  This crate verifies the binding's
//! own bookkeeping around that convention: the attribute store, the codecs
//! that turn typed values into attribute strings and back, the conversions
//! between raw toolkit codes and typed enums, and the state transitions each
//! widget operation performs.  Driving the native toolkit itself is left to
//! an unverified shell around this library.

use vstd::prelude::*;

pub mod attr;
pub mod callback;
pub mod clipboard;
pub mod codec;
pub mod control;
pub mod dialog;
pub mod element;
pub mod image;
pub mod layout;
pub mod strutil;
pub mod timer;

pub use attr::{AttrBag, AttrEntry};
pub use callback::{
    drop_callbacks, fbox_attr_name, remove_callback, set_callback, CallbackReturn, IntoRust,
    KeyStates, MouseButton, MouseButtonState,
};
pub use clipboard::Clipboard;
pub use control::{Button, Frame, Label, List, ListItemState, ProgressBar, Text, Toggle};
pub use dialog::{AlarmButton, Dialog, DialogElement, DialogPos, FileDlg, MessageDlg, ShowState};
pub use element::{
    into_handle, Container, Elem, ElemAbs, Element, Globals, Handle, NameEntry, NameRegistry,
    Widget,
};
pub use image::{Image, ImageElement, ImageRgb, ImageRgba, InPixels};
pub use layout::{Fill, HBox, Radio, VBox};
pub use timer::Timer;
pub use codec::{decode_bool, encode_bool, format_rgb, format_u32, parse_rgb, parse_u32};
pub use strutil::{split_str, split_terminator_str, str_eq};

verus! {

/// Direction of a separator or layout flow.
pub enum Orientation {
    Vertical,
    Horizontal,
}

impl Orientation {
    /// The attribute value the toolkit expects for this orientation.
    pub fn as_cstr(self) -> (r: &'static str)
        ensures
            self is Vertical ==> r@ == "VERTICAL"@,
            self is Horizontal ==> r@ == "HORIZONTAL"@,
    {
        match self {
            Orientation::Vertical => "VERTICAL",
            Orientation::Horizontal => "HORIZONTAL",
        }
    }
}

/// The raw code the toolkit returns when a call succeeded.
pub const IUP_NOERROR: i32 = 0;

/// The raw code the toolkit returns when a call failed.
pub const IUP_ERROR: i32 = 1;

/// The raw code the toolkit returns when it was already initialised.
pub const IUP_OPENED: i32 = -1;

/// Why initialising the toolkit failed.
#[derive(Debug, Copy, Clone, Eq, PartialEq)]
pub enum InitError {
    /// The toolkit was already open.
    AlreadyOpen,
    /// The native initialisation failed.
    Error,
}

/// Decodes the raw result of initialising the toolkit.
pub fn init_outcome(code: i32) -> (r: Result<(), InitError>)
    requires
        code == IUP_NOERROR || code == IUP_ERROR || code == IUP_OPENED,
    ensures
        code == IUP_NOERROR ==> (r matches Ok(u) && u == ()),
        code == IUP_OPENED ==> (r matches Err(e) && e is AlreadyOpen),
        code == IUP_ERROR ==> (r matches Err(e) && e is Error),
{
    if code == IUP_NOERROR {
        Ok(())
    } else if code == IUP_OPENED {
        Err(InitError::AlreadyOpen)
    } else {
        Err(InitError::Error)
    }
}

/// Decodes the raw result of a fallible toolkit operation, such as showing
/// or mapping an element, tagging a failure with the given message.
pub fn op_outcome(code: i32, err: &str) -> (r: Result<(), String>)
    requires
        code == IUP_NOERROR || code == IUP_ERROR,
    ensures
        code == IUP_NOERROR ==> (r matches Ok(u) && u == ()),
        code == IUP_ERROR ==> (r matches Err(e) && e@ == err@),
{
    if code == IUP_NOERROR {
        Ok(())
    } else {
        Err(String::from_str(err))
    }
}

/// Whether a toolkit driver is known to handle UTF-8 text, so that the
/// `UTF8MODE` globals should be switched on after initialisation.
pub fn driver_supports_utf8(driver: &str) -> (r: bool)
    ensures
        r == (driver@ == "GTK"@ || driver@ == "Win32"@),
{
    str_eq(driver, "GTK") || str_eq(driver, "Win32")
}

} // verus!

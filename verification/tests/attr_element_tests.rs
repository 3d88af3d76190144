use iup::attr::AttrBag;
use iup::callback::{drop_callbacks, fbox_attr_name, remove_callback, set_callback, CallbackReturn};
use iup::element::{into_handle, Elem, Handle};
use iup::control::{Button, Label};
use iup::{driver_supports_utf8, init_outcome, InitError};

#[test]
fn bag_set_get() {
    let mut bag = AttrBag::new();
    assert_eq!(bag.get("TITLE"), None);
    assert!(!bag.contains("TITLE"));
    bag.set("TITLE", "hello");
    assert_eq!(bag.get("TITLE"), Some(String::from("hello")));
    assert!(bag.contains("TITLE"));
    assert_eq!(bag.len(), 1);
}

#[test]
fn bag_overwrites_in_place() {
    let mut bag = AttrBag::new();
    bag.set("VALUE", "a");
    bag.set("VALUE", "b");
    assert_eq!(bag.get("VALUE"), Some(String::from("b")));
    assert_eq!(bag.len(), 1);
}

#[test]
fn bag_names_are_case_sensitive() {
    let mut bag = AttrBag::new();
    bag.set("TITLE", "upper");
    bag.set("title", "lower");
    assert_eq!(bag.get("TITLE"), Some(String::from("upper")));
    assert_eq!(bag.get("title"), Some(String::from("lower")));
    assert_eq!(bag.len(), 2);
}

#[test]
fn bag_unset() {
    let mut bag = AttrBag::new();
    bag.set("A", "1");
    bag.set("B", "2");
    bag.unset("A");
    assert_eq!(bag.get("A"), None);
    assert_eq!(bag.get("B"), Some(String::from("2")));
    bag.unset("MISSING");
    assert_eq!(bag.len(), 1);
}

#[test]
fn elem_typed_attributes() {
    let mut e = Elem::new();
    e.set_attrib_bool("ACTIVE", true);
    assert_eq!(e.attrib("ACTIVE"), Some(String::from("YES")));
    assert_eq!(e.attrib_bool("ACTIVE"), Some(true));
    e.set_attrib_bool("ACTIVE", false);
    assert_eq!(e.attrib_bool("ACTIVE"), Some(false));
    assert_eq!(e.attrib_bool("MISSING"), None);

    e.set_attrib_u32("SIZE", 640);
    assert_eq!(e.attrib("SIZE"), Some(String::from("640")));
    assert_eq!(e.attrib_u32("SIZE"), Some(640));

    e.set_attrib_rgb("FGCOLOR", (10, 20, 30));
    assert_eq!(e.attrib("FGCOLOR"), Some(String::from("10 20 30")));
    assert_eq!(e.attrib_rgb("FGCOLOR"), Some((10, 20, 30)));

    e.set_attrib("FGCOLOR", "not a color");
    assert_eq!(e.attrib_rgb("FGCOLOR"), None);

    e.clear_attrib("SIZE");
    assert!(!e.does_attrib_exist("SIZE"));
}

#[test]
fn handle_downcast_succeeds_on_same_class() {
    let b = Button::with_title("ok");
    let h = into_handle(&b);
    assert_eq!(h.class, "button");
    let back: Result<Button, Handle> = h.try_downcast::<Button>();
    match back {
        Ok(b) => assert_eq!(b.elem.attrib("TITLE"), Some(String::from("ok"))),
        Err(_) => panic!("downcast to the original class failed"),
    }
}

#[test]
fn handle_downcast_fails_on_other_class() {
    let b = Button::with_title("ok");
    let h = into_handle(&b);
    let r: Result<Label, Handle> = h.try_downcast::<Label>();
    assert!(r.is_err());
}

#[test]
fn handle_downcast_to_handle_always_succeeds() {
    let b = Button::new();
    let h = into_handle(&b);
    let r: Result<Handle, Handle> = h.try_downcast::<Handle>();
    assert!(r.is_ok());
}

#[test]
fn callback_slots() {
    assert_eq!(fbox_attr_name("ACTION"), "_IUPRUST_FBOX_ACTION");
    let mut e = Elem::new();
    assert!(!remove_callback(&mut e, "ACTION"));
    set_callback(&mut e, "ACTION");
    assert!(e.does_attrib_exist("_IUPRUST_FBOX_ACTION"));
    assert!(remove_callback(&mut e, "ACTION"));
    assert!(!e.does_attrib_exist("_IUPRUST_FBOX_ACTION"));
}

#[test]
fn dropping_callbacks_keeps_ordinary_attributes() {
    let mut e = Elem::new();
    e.set_attrib("TITLE", "kept");
    set_callback(&mut e, "ACTION");
    set_callback(&mut e, "MAP_CB");
    drop_callbacks(&mut e);
    assert!(!e.does_attrib_exist("_IUPRUST_FBOX_ACTION"));
    assert!(!e.does_attrib_exist("_IUPRUST_FBOX_MAP_CB"));
    assert_eq!(e.attrib("TITLE"), Some(String::from("kept")));
}

#[test]
fn callback_return_codes() {
    assert_eq!(CallbackReturn::Default.to_raw(), -2);
    assert_eq!(CallbackReturn::Close.to_raw(), -3);
    assert_eq!(CallbackReturn::Ignore.to_raw(), -1);
    assert_eq!(CallbackReturn::Continue.to_raw(), -4);
    assert_eq!(CallbackReturn::Char('a').to_raw(), 97);
}

#[test]
fn init_outcomes() {
    assert!(init_outcome(0).is_ok());
    assert_eq!(init_outcome(-1), Err(InitError::AlreadyOpen));
    assert_eq!(init_outcome(1), Err(InitError::Error));
}

#[test]
fn global_environment() {
    let mut g = iup::Globals::new();
    assert_eq!(g.global("DRIVER"), None);
    g.set_global("UTF8MODE", "YES");
    assert_eq!(g.global("UTF8MODE"), Some(String::from("YES")));
    g.clear_attrib("UTF8MODE");
    assert_eq!(g.global("UTF8MODE"), None);
}

#[test]
fn op_outcomes() {
    assert_eq!(iup::op_outcome(0, "show:IUP_ERROR"), Ok(()));
    assert_eq!(iup::op_outcome(1, "show:IUP_ERROR"), Err(String::from("show:IUP_ERROR")));
    assert_eq!(iup::op_outcome(1, "map:IUP_ERROR"), Err(String::from("map:IUP_ERROR")));
}

#[test]
fn utf8_drivers() {
    assert!(driver_supports_utf8("GTK"));
    assert!(driver_supports_utf8("Win32"));
    assert!(!driver_supports_utf8("Motif"));
    assert!(!driver_supports_utf8(""));
}

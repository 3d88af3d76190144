use iup::callback::{IntoRust, KeyStates, MouseButton, MouseButtonState};
use iup::clipboard::Clipboard;
use iup::control::{Frame, Label, List, ListItemState, ProgressBar, Text, Toggle};
use iup::dialog::{AlarmButton, Dialog, DialogElement, DialogPos, FileDlg, MessageDlg, ShowState};
use iup::element::{into_handle, Container, Element, NameRegistry, Widget};
use iup::image::{Image, ImageElement, ImageRgb, InPixels};
use iup::layout::{Fill, HBox, Radio, VBox};
use iup::timer::Timer;
use iup::Orientation;

#[test]
fn label_constructors() {
    let l = Label::with_title("hi");
    assert_eq!(l.elem.attrib("TITLE"), Some(String::from("hi")));
    let s = Label::new_separator(Orientation::Horizontal);
    assert_eq!(s.elem.attrib("SEPARATOR"), Some(String::from("HORIZONTAL")));
    let s = Label::new_separator(Orientation::Vertical);
    assert_eq!(s.elem.attrib("SEPARATOR"), Some(String::from("VERTICAL")));
}

#[test]
fn toggle_and_text_constructors() {
    let t = Toggle::with_title("opt");
    assert_eq!(t.elem.attrib("TITLE"), Some(String::from("opt")));
    let spin = Text::new_spin();
    assert_eq!(spin.elem.attrib("SPIN"), Some(String::from("YES")));
    let plain = Text::new();
    assert_eq!(plain.elem.attrib("SPIN"), None);
    let p = ProgressBar::new();
    assert!(!p.elem.mapped);
}

#[test]
fn widget_show_and_conceal() {
    let mut b = iup::Button::with_title("go");
    assert!(!b.elem.mapped);
    b.show().unwrap();
    assert!(b.elem.mapped);
    assert_eq!(b.elem.attrib("VISIBLE"), Some(String::from("YES")));
    b.conceal();
    assert_eq!(b.elem.attrib("VISIBLE"), Some(String::from("NO")));
    b.unmap();
    assert!(!b.elem.mapped);
    let r = b.map();
    assert!(r.is_ok());
    assert!(b.elem.mapped);
}

#[test]
fn list_items() {
    let mut l = List::new_dropdown();
    assert_eq!(l.elem.attrib("DROPDOWN"), Some(String::from("YES")));
    let items = vec![String::from("a"), String::from("b"), String::from("c")];
    l.set_items(&items);
    assert_eq!(l.item(1), Some(String::from("a")));
    assert_eq!(l.item(3), Some(String::from("c")));
    assert_eq!(l.item(4), None);
    assert_eq!(l.elem.attrib("1"), Some(String::from("a")));
    assert_eq!(l.elem.attrib("3"), Some(String::from("c")));
    l.clear();
    assert_eq!(l.item(1), None);
    assert_eq!(l.elem.attrib("1"), None);
    let e = List::new_editbox();
    assert_eq!(e.elem.attrib("EDITBOX"), Some(String::from("YES")));
}

#[test]
fn list_shrinking_drops_stale_numbered_attributes() {
    let mut l = List::new();
    l.set_items(&vec![String::from("a"), String::from("b"), String::from("c")]);
    l.set_items(&vec![String::from("x")]);
    assert_eq!(l.elem.attrib("1"), Some(String::from("x")));
    assert_eq!(l.elem.attrib("2"), None);
    assert_eq!(l.elem.attrib("3"), None);
    assert_eq!(l.item(2), None);
}

#[test]
fn list_items_live_in_the_numbered_attributes() {
    let mut l = List::new_dropdown();
    l.set_items(&vec![String::from("a")]);
    l.elem.set_attrib("1", "b");
    assert_eq!(l.item(1), Some(String::from("b")));
    l.elem.set_attrib("5", "stray");
    l.clear();
    assert_eq!(l.elem.attrib("5"), None);
    assert_eq!(l.item(1), None);
    assert_eq!(l.elem.attrib("DROPDOWN"), Some(String::from("YES")));
}

#[test]
fn list_item_state_conversion() {
    let s: ListItemState = 1i32.into_rust();
    assert!(matches!(s, ListItemState::Selected));
    let s: ListItemState = 0i32.into_rust();
    assert!(matches!(s, ListItemState::Deselected));
}

#[test]
fn containers_keep_children() {
    let b = iup::Button::with_title("x");
    let f = Frame::new(&b);
    assert_eq!(f.children.len(), 1);
    assert_eq!(f.children[0].class, "button");
    let hb = HBox::new(vec![iup::element::into_handle(&b)]);
    assert_eq!(hb.children.len(), 1);
    let vb = VBox::new(Vec::new());
    assert_eq!(vb.children.len(), 0);
    let r = Radio::new(&vb);
    assert_eq!(r.children[0].class, "vbox");
    let _fill = Fill::new();
    assert_eq!(<Fill as Element>::target_classname(), "fill");
}

#[test]
fn containers_append_and_index_children() {
    let mut vb = VBox::new(Vec::new());
    assert_eq!(vb.child_count(), 0);
    assert!(vb.child(0).is_none());
    let parent = vb.append(Label::with_title("one"));
    assert!(parent.is_ok());
    vb.append(Toggle::with_title("two")).ok();
    assert_eq!(vb.child_count(), 2);
    let first = vb.child(0).unwrap();
    assert_eq!(first.class, "label");
    assert_eq!(first.elem.attrib("TITLE"), Some(String::from("one")));
    let second = vb.child(1).unwrap();
    assert_eq!(second.class, "toggle");
    let mut d = Dialog::new_empty();
    d.append(Frame::new_empty()).ok();
    assert_eq!(d.child_count(), 1);
}

#[test]
fn containers_insert_before_a_matching_child() {
    let mut vb = VBox::new(Vec::new());
    vb.append(Label::with_title("one")).ok();
    vb.append(Label::with_title("two")).ok();
    assert_eq!(vb.child_pos(&Label::with_title("two")), Some(1));
    assert_eq!(vb.child_pos(&Label::with_title("zzz")), None);
    let r = vb.insert(&Label::with_title("two"), Toggle::with_title("mid"));
    assert!(r.is_ok());
    assert_eq!(vb.child_count(), 3);
    assert_eq!(vb.child(1).unwrap().class, "toggle");
    assert_eq!(vb.child(2).unwrap().class, "label");
    let r2 = vb.insert(&Label::with_title("zzz"), Toggle::new());
    assert!(r2.is_err());
    assert_eq!(vb.child_count(), 3);
}

#[test]
fn handle_name_registry() {
    let mut reg = NameRegistry::new();
    assert!(reg.from_named("main").is_none());
    let b = iup::Button::with_title("go");
    assert!(reg.add_handle_name("main", &into_handle(&b)).is_none());
    let h = reg.from_named("main").unwrap();
    assert_eq!(h.class, "button");
    assert_eq!(h.elem.attrib("TITLE"), Some(String::from("go")));
    let prev = reg.add_handle_name("main", &into_handle(&Label::new()));
    assert_eq!(prev.map(|p| p.class), Some(String::from("button")));
    let removed = reg.clear_handle_name("main");
    assert_eq!(removed.map(|p| p.class), Some(String::from("label")));
    assert!(reg.from_named("main").is_none());
    assert!(reg.clear_handle_name("main").is_none());
}

#[test]
fn unit_and_char_conversions() {
    assert!(matches!(iup::CallbackReturn::from(()), iup::CallbackReturn::Default));
    let c: Option<char> = 97i32.into_rust();
    assert_eq!(c, Some('a'));
    let c: Option<char> = 0i32.into_rust();
    assert_eq!(c, None);
    let c: Option<char> = 0x10FFFFi32.into_rust();
    assert_eq!(c, Some('\u{10FFFF}'));
}

#[test]
fn dialog_positions() {
    assert_eq!(DialogPos::At(12).to_raw(), 12);
    assert_eq!(DialogPos::Center.to_raw(), 65535);
    assert_eq!(DialogPos::Left.to_raw(), 65534);
    assert_eq!(DialogPos::Right.to_raw(), 65533);
    assert_eq!(DialogPos::MousePos.to_raw(), 65532);
    assert_eq!(DialogPos::Current.to_raw(), 65531);
    assert_eq!(DialogPos::CenterParent.to_raw(), 65530);
    assert_eq!(DialogPos::Top.to_raw(), 65534);
    assert_eq!(DialogPos::Bottom.to_raw(), 65533);
    assert_eq!(DialogPos::At(-5).to_raw_x(), -5);
    assert_eq!(DialogPos::Top.to_raw_y(), 65534);
}

#[test]
fn dialog_show() {
    let mut d = Dialog::new(&Label::with_title("body"));
    assert_eq!(d.children.len(), 1);
    d.showxy(DialogPos::Center, DialogPos::Center).unwrap();
    assert!(d.elem.mapped);
    assert_eq!(d.elem.attrib("VISIBLE"), Some(String::from("YES")));
    let mut m = MessageDlg::new();
    assert!(m.popup(DialogPos::Current, DialogPos::Current).is_ok());
}

#[test]
fn file_dialog_types() {
    assert_eq!(FileDlg::new_open().elem.attrib("DIALOGTYPE"), Some(String::from("OPEN")));
    assert_eq!(FileDlg::new_save().elem.attrib("DIALOGTYPE"), Some(String::from("SAVE")));
    assert_eq!(FileDlg::new_dir().elem.attrib("DIALOGTYPE"), Some(String::from("DIR")));
}

#[test]
fn file_dialog_single_selection() {
    let mut d = FileDlg::new_open();
    assert_eq!(d.files(), None);
    d.elem.set_attrib("VALUE", "/home/user/notes.txt");
    assert_eq!(d.files(), Some(vec![String::from("/home/user/notes.txt")]));
    assert_eq!(d.path(), Some(String::from("/home/user/notes.txt")));
}

#[test]
fn file_dialog_multiple_selection() {
    let mut d = FileDlg::new_open();
    d.elem.set_attrib("VALUE", "/home/user|a.txt|b.txt");
    assert_eq!(
        d.files(),
        Some(vec![String::from("/home/user/a.txt"), String::from("/home/user/b.txt")])
    );
    d.elem.set_attrib("VALUE", "/home/user|a.txt|b.txt|");
    assert_eq!(
        d.files(),
        Some(vec![String::from("/home/user/a.txt"), String::from("/home/user/b.txt")])
    );
    d.elem.set_attrib("VALUE", "");
    assert_eq!(d.files(), None);
}

#[test]
fn file_dialog_join_does_not_double_the_separator() {
    let mut d = FileDlg::new_open();
    d.elem.set_attrib("VALUE", "/home/user/|a.txt|b.txt");
    assert_eq!(
        d.files(),
        Some(vec![String::from("/home/user/a.txt"), String::from("/home/user/b.txt")])
    );
    d.elem.set_attrib("VALUE", "|a.txt");
    assert_eq!(d.files(), Some(vec![String::from("a.txt")]));
}

#[test]
fn timer_state() {
    let mut t = Timer::new();
    assert_eq!(t.time(), None);
    t.set_time(100);
    assert_eq!(t.time(), Some(100));
    assert_eq!(t.elem.attrib("TIME"), Some(String::from("100")));
    t.run();
    assert!(t.is_running());
    t.stop();
    assert!(!t.is_running());
}

#[test]
fn clipboard_text_and_data() {
    let mut c = Clipboard::new();
    c.set_text("hello");
    assert_eq!(c.text(), Some(String::from("hello")));
    c.add_format("text/html");
    assert_eq!(c.elem.attrib("ADDFORMAT"), Some(String::from("text/html")));

    let payload = vec![1u8, 2, 3];
    c.set_data("text/html", &payload);
    assert_eq!(c.elem.attrib("FORMAT"), Some(String::from("text/html")));
    assert_eq!(c.elem.attrib("FORMATDATASIZE"), Some(String::from("3")));
    assert_eq!(c.data("text/html"), Some(vec![1u8, 2, 3]));
    c.clear();
    assert_eq!(c.data("text/html"), None);
}

#[test]
fn clipboard_availability() {
    let mut c = Clipboard::new();
    c.elem.set_attrib("TEXTAVAILABLE", "YES");
    assert!(c.has_text());
    c.elem.set_attrib("TEXTAVAILABLE", "NO");
    assert!(!c.has_text());
    c.elem.set_attrib("IMAGEAVAILABLE", "NO");
    assert!(!c.has_image());
    c.elem.set_attrib("FORMATAVAILABLE", "YES");
    assert!(c.has_data("text/html"));
    assert_eq!(c.elem.attrib("FORMAT"), Some(String::from("text/html")));
}

#[test]
fn clipboard_image() {
    let mut c = Clipboard::new();
    let im = <Image as ImageElement>::new(1, 1, vec![0u8]);
    c.set_image(&im);
    assert_eq!(c.image.as_ref().map(|h| h.class.clone()), Some(String::from("image")));
}

#[test]
fn image_from_rows() {
    let im = <Image as ImageElement>::with(InPixels(vec![vec![1u8, 2], vec![3, 4], vec![5, 6]]));
    assert_eq!(im.width, 2);
    assert_eq!(im.height, 3);
    assert_eq!(im.pixels, vec![1u8, 2, 3, 4, 5, 6]);

    let rgb = <ImageRgb as ImageElement>::with(InPixels(vec![
        vec![(255u8, 0u8, 0u8), (0, 255, 0)],
        vec![(0, 0, 255), (9, 9, 9)],
    ]));
    assert_eq!(rgb.width, 2);
    assert_eq!(rgb.height, 2);
    assert_eq!(rgb.pixels[3], (9, 9, 9));
}

#[test]
fn image_palette() {
    let mut im = <Image as ImageElement>::new(2, 1, vec![0u8, 1]);
    im.set_colors(&vec![(255, 0, 0), (0, 128, 255)]);
    assert_eq!(im.elem.attrib("0"), Some(String::from("255 0 0")));
    assert_eq!(im.elem.attrib("1"), Some(String::from("0 128 255")));
    assert_eq!(im.elem.attrib_rgb("1"), Some((0, 128, 255)));
}

#[test]
fn mouse_conversions() {
    assert!(matches!(MouseButton::from_id(1), MouseButton::Button1));
    assert!(matches!(MouseButton::from_id(5), MouseButton::Button5));
    let b: MouseButton = 49i32.into_rust();
    assert!(matches!(b, MouseButton::Button1));
    let b: MouseButton = 53i32.into_rust();
    assert!(matches!(b, MouseButton::Button5));
    let s: MouseButtonState = 1i32.into_rust();
    assert!(matches!(s, MouseButtonState::Pressed));
    let s: MouseButtonState = 0i32.into_rust();
    assert!(matches!(s, MouseButtonState::Released));
}

#[test]
fn show_state_conversions() {
    let s: ShowState = 0i32.into_rust();
    assert!(matches!(s, ShowState::Show));
    let s: ShowState = 1i32.into_rust();
    assert!(matches!(s, ShowState::Restore));
    let s: ShowState = 2i32.into_rust();
    assert!(matches!(s, ShowState::Minimize));
    let s: ShowState = 3i32.into_rust();
    assert!(matches!(s, ShowState::Maximize));
    let s: ShowState = 4i32.into_rust();
    assert!(matches!(s, ShowState::Hide));
}

#[test]
fn alarm_buttons() {
    assert!(matches!(AlarmButton::from_code(1), AlarmButton::Button1));
    assert!(matches!(AlarmButton::from_code(2), AlarmButton::Button2));
    assert!(matches!(AlarmButton::from_code(3), AlarmButton::Button3));
}

#[test]
fn key_states_flags() {
    let ks = KeyStates::new(b"SC1       ".to_vec());
    assert!(ks.is_shift());
    assert!(ks.is_control());
    assert!(ks.is_button1());
    assert!(!ks.is_alt());
    assert!(!ks.is_double());
    let ks = KeyStates::new(b"   2 DAY45".to_vec());
    assert!(!ks.is_shift());
    assert!(ks.is_button2());
    assert!(ks.is_double());
    assert!(ks.is_alt());
    assert!(ks.is_sys());
    assert!(ks.is_button4());
    assert!(ks.is_button5());
}

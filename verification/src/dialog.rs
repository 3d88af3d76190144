//! Dialogs: top-level windows, message and file dialogs, and the screen
//! position encoding used when showing them.

use vstd::prelude::*;
use crate::element::child_match;
use crate::element::handle_matches_element;
use crate::element::Container;
use crate::element::Elem;
use crate::element::Element;
use crate::element::Handle;
use crate::element::Widget;
use crate::callback::IntoRust;
use crate::strutil::split_terminator_spec;
use crate::strutil::split_terminator_str;

verus! {

/// The raw screen coordinate meaning "center".
pub const IUP_CENTER: i32 = 65535;

/// The raw screen coordinate meaning the left screen border.
pub const IUP_LEFT: i32 = 65534;

/// The raw screen coordinate meaning the right screen border.
pub const IUP_RIGHT: i32 = 65533;

/// The raw screen coordinate meaning "at the mouse cursor".
pub const IUP_MOUSEPOS: i32 = 65532;

/// The raw screen coordinate meaning "keep the current position".
pub const IUP_CURRENT: i32 = 65531;

/// The raw screen coordinate meaning "centered on the parent".
pub const IUP_CENTERPARENT: i32 = 65530;

/// The raw screen coordinate meaning the top border; shares its code with
/// the left border, as the toolkit reuses it per axis.
pub const IUP_TOP: i32 = 65534;

/// The raw screen coordinate meaning the bottom border; shares its code
/// with the right border.
pub const IUP_BOTTOM: i32 = 65533;

/// Where a dialog should be placed on one axis of the screen.
#[derive(Debug, Copy, Clone, Eq, PartialEq)]
pub enum DialogPos {
    /// At the given coordinate.
    At(i32),
    /// Keep the dialog's current position.
    Current,
    /// Center on the screen.
    Center,
    /// Center relative to the parent.
    CenterParent,
    /// At the mouse cursor.
    MousePos,
    /// On the left border; valid only for the horizontal axis.
    Left,
    /// On the right border; valid only for the horizontal axis.
    Right,
    /// On the top border; valid only for the vertical axis.
    Top,
    /// On the bottom border; valid only for the vertical axis.
    Bottom,
}

impl DialogPos {
    /// The raw coordinate code this position stands for.
    pub open spec fn raw_spec(self) -> int {
        match self {
            DialogPos::At(i) => i as int,
            DialogPos::Top => IUP_TOP as int,
            DialogPos::Bottom => IUP_BOTTOM as int,
            DialogPos::Left => IUP_LEFT as int,
            DialogPos::Right => IUP_RIGHT as int,
            DialogPos::Current => IUP_CURRENT as int,
            DialogPos::MousePos => IUP_MOUSEPOS as int,
            DialogPos::Center => IUP_CENTER as int,
            DialogPos::CenterParent => IUP_CENTERPARENT as int,
        }
    }

    /// Encodes this position as the toolkit's raw coordinate.
    pub fn to_raw(&self) -> (r: i32)
        ensures
            r as int == self.raw_spec(),
    {
        match *self {
            DialogPos::At(i) => i,
            DialogPos::Top => IUP_TOP,
            DialogPos::Bottom => IUP_BOTTOM,
            DialogPos::Left => IUP_LEFT,
            DialogPos::Right => IUP_RIGHT,
            DialogPos::Current => IUP_CURRENT,
            DialogPos::MousePos => IUP_MOUSEPOS,
            DialogPos::Center => IUP_CENTER,
            DialogPos::CenterParent => IUP_CENTERPARENT,
        }
    }

    /// Encodes a position for the horizontal axis, where `Top` and `Bottom`
    /// make no sense.
    pub fn to_raw_x(&self) -> (r: i32)
        requires
            !(*self is Top),
            !(*self is Bottom),
        ensures
            r as int == self.raw_spec(),
    {
        self.to_raw()
    }

    /// Encodes a position for the vertical axis, where `Left` and `Right`
    /// make no sense.
    pub fn to_raw_y(&self) -> (r: i32)
        requires
            !(*self is Left),
            !(*self is Right),
        ensures
            r as int == self.raw_spec(),
    {
        self.to_raw()
    }
}

/// What happened to a dialog when its show callback runs.
#[derive(Debug, Copy, Clone, Eq, PartialEq)]
pub enum ShowState {
    Hide,
    Show,
    /// Was restored from a minimized or maximized state.
    Restore,
    Minimize,
    /// Not reported on every system when activated from the maximize button.
    Maximize,
}

impl IntoRust<ShowState> for i32 {
    open spec fn valid_raw(self) -> bool {
        0 <= self <= 4
    }

    open spec fn into_spec(self) -> ShowState {
        if self == 0 {
            ShowState::Show
        } else if self == 1 {
            ShowState::Restore
        } else if self == 2 {
            ShowState::Minimize
        } else if self == 3 {
            ShowState::Maximize
        } else {
            ShowState::Hide
        }
    }

    fn into_rust(self) -> (r: ShowState) {
        if self == 0 {
            ShowState::Show
        } else if self == 1 {
            ShowState::Restore
        } else if self == 2 {
            ShowState::Minimize
        } else if self == 3 {
            ShowState::Maximize
        } else {
            ShowState::Hide
        }
    }
}

/// Which of the up-to-three buttons of an alarm dialog was pressed.
#[derive(Debug, Copy, Clone, Eq, PartialEq)]
pub enum AlarmButton {
    Button1,
    Button2,
    Button3,
}

impl AlarmButton {
    /// Decodes the button number the alarm dialog reports, which starts at 1.
    pub fn from_code(code: i32) -> (r: AlarmButton)
        requires
            1 <= code <= 3,
        ensures
            code == 1 ==> r is Button1,
            code == 2 ==> r is Button2,
            code == 3 ==> r is Button3,
    {
        match code {
            1 => AlarmButton::Button1,
            2 => AlarmButton::Button2,
            _ => AlarmButton::Button3,
        }
    }
}

/// A top-level element that can be shown at a position or run modally.
pub trait DialogElement: Widget {
    /// Shows the dialog at the given position on screen.
    fn showxy(&mut self, x: DialogPos, y: DialogPos) -> (r: Result<(), String>)
        requires
            old(self).spec_elem().wf(),
            !(x is Top),
            !(x is Bottom),
            !(y is Left),
            !(y is Right),
        ensures
            final(self).spec_elem().wf(),
            final(self).spec_elem().abs().attrs == old(self).spec_elem().abs().attrs.insert(
                "VISIBLE"@,
                "YES"@,
            ),
            final(self).spec_elem().abs().mapped,
            r matches Ok(u) && u == (),
    ;

    /// Shows the dialog modally, restricting interaction to it.
    fn popup(&mut self, x: DialogPos, y: DialogPos) -> (r: Result<Self, Self>)
        requires
            old(self).spec_elem().wf(),
            !(x is Top),
            !(x is Bottom),
            !(y is Left),
            !(y is Right),
        ensures
            final(self).spec_elem().wf(),
            final(self).spec_elem().abs().attrs == old(self).spec_elem().abs().attrs.insert(
                "VISIBLE"@,
                "YES"@,
            ),
            final(self).spec_elem().abs().mapped,
            r matches Ok(w) && w.spec_elem().abs() == final(self).spec_elem().abs(),
    ;
}

/// A window managing user interaction with the elements inside it.
pub struct Dialog {
    pub elem: Elem,
    pub children: Vec<Handle>,
}

impl Dialog {
    /// A dialog holding the given child element.
    pub fn new<E: Element>(child: &E) -> (r: Dialog)
        ensures
            r.elem.wf(),
            r.elem.abs().attrs == Map::<Seq<char>, Seq<char>>::empty(),
            !r.elem.abs().mapped,
            r.children@.len() == 1,
            r.children@[0].class@ == E::classname_spec(),
            r.children@[0].elem.abs() == child.spec_elem().abs(),
    {
        let h = crate::element::into_handle(child);
        let mut v: Vec<Handle> = Vec::new();
        v.push(h);
        Dialog { elem: Elem::new(), children: v }
    }

    /// A dialog with no elements.
    pub fn new_empty() -> (r: Dialog)
        ensures
            r.elem.wf(),
            r.elem.abs().attrs == Map::<Seq<char>, Seq<char>>::empty(),
            !r.elem.abs().mapped,
            r.children@.len() == 0,
    {
        Dialog { elem: Elem::new(), children: Vec::new() }
    }
}

fn clone_handles(hs: &Vec<Handle>) -> (r: Vec<Handle>)
    ensures
        r@.len() == hs@.len(),
{
    let mut v: Vec<Handle> = Vec::new();
    let n = hs.len();
    let mut i: usize = 0;
    while i < n
        invariant
            i <= n,
            n == hs@.len(),
            v@.len() == i,
        decreases n - i,
    {
        v.push(hs[i].clone());
        i = i + 1;
    }
    v
}

impl Element for Dialog {
    open spec fn spec_elem(&self) -> Elem {
        self.elem
    }

    open spec fn classname_spec() -> Seq<char> {
        "dialog"@
    }

    fn target_classname() -> (r: &'static str) {
        "dialog"
    }

    fn elem(&self) -> (r: &Elem) {
        &self.elem
    }

    fn from_elem(e: Elem) -> (r: Dialog) {
        Dialog { elem: e, children: Vec::new() }
    }

    fn dup(&self) -> (r: Dialog) {
        Dialog { elem: self.elem.clone(), children: clone_handles(&self.children) }
    }
}


impl Container for Dialog {
    open spec fn spec_children(&self) -> Seq<Handle> {
        self.children@
    }

    fn append<E: Element>(&mut self, new_child: E) -> (r: Result<Handle, E>) {
        let h = crate::element::into_handle(&new_child);
        self.children.push(h);
        Ok(crate::element::into_handle(&*self))
    }

    fn child(&self, pos: usize) -> (r: Option<Handle>) {
        if pos < self.children.len() {
            Some(self.children[pos].clone())
        } else {
            None
        }
    }

    fn child_count(&self) -> (r: usize) {
        self.children.len()
    }

    fn child_pos<E: Element>(&self, child: &E) -> (r: Option<usize>) {
        let n = self.children.len();
        let mut i: usize = 0;
        while i < n
            invariant
                n == self.children@.len(),
                i <= n,
                forall|q: int|
                    0 <= q < i ==> !child_match(
                        #[trigger] self.children@[q],
                        E::classname_spec(),
                        child.spec_elem(),
                    ),
            decreases n - i,
        {
            if handle_matches_element(&self.children[i], child) {
                return Some(i);
            }
            i = i + 1;
        }
        None
    }

    fn insert<E1: Element, E2: Element>(&mut self, ref_child: &E1, new_child: E2) -> (r: Result<
        Handle,
        E2,
    >) {
        let pos = self.child_pos(ref_child);
        match pos {
            Some(p) => {
                let h = crate::element::into_handle(&new_child);
                let ghost h0 = h;
                self.children.insert(p, h);
                proof {
                    old(self).children@.insert_ensures(p as int, h0);
                }
                Ok(crate::element::into_handle(&*self))
            },
            None => Err(new_child),
        }
    }
}

impl Widget for Dialog {
    fn map(&mut self) -> (r: Result<Dialog, Dialog>) {
        self.elem.set_mapped(true);
        Ok(self.dup())
    }

    fn unmap(&mut self) {
        self.elem.set_mapped(false);
    }

    fn show(&mut self) -> (r: Result<(), String>) {
        self.elem.set_attrib("VISIBLE", "YES");
        self.elem.set_mapped(true);
        Ok(())
    }

    fn conceal(&mut self) -> (r: Dialog) {
        self.elem.set_attrib("VISIBLE", "NO");
        self.dup()
    }
}

impl DialogElement for Dialog {
    fn showxy(&mut self, x: DialogPos, y: DialogPos) -> (r: Result<(), String>) {
        self.elem.set_attrib("VISIBLE", "YES");
        self.elem.set_mapped(true);
        Ok(())
    }

    fn popup(&mut self, x: DialogPos, y: DialogPos) -> (r: Result<Dialog, Dialog>) {
        self.elem.set_attrib("VISIBLE", "YES");
        self.elem.set_mapped(true);
        Ok(self.dup())
    }
}

/// A predefined dialog for displaying a message, shown with `popup`.
pub struct MessageDlg {
    pub elem: Elem,
}

impl MessageDlg {
    pub fn new() -> (r: MessageDlg)
        ensures
            r.elem.wf(),
            r.elem.abs().attrs == Map::<Seq<char>, Seq<char>>::empty(),
            !r.elem.abs().mapped,
    {
        MessageDlg { elem: Elem::new() }
    }
}

impl Element for MessageDlg {
    open spec fn spec_elem(&self) -> Elem {
        self.elem
    }

    open spec fn classname_spec() -> Seq<char> {
        "messagedlg"@
    }

    fn target_classname() -> (r: &'static str) {
        "messagedlg"
    }

    fn elem(&self) -> (r: &Elem) {
        &self.elem
    }

    fn from_elem(e: Elem) -> (r: MessageDlg) {
        MessageDlg { elem: e }
    }

    fn dup(&self) -> (r: MessageDlg) {
        MessageDlg { elem: self.elem.clone() }
    }
}

impl Widget for MessageDlg {
    fn map(&mut self) -> (r: Result<MessageDlg, MessageDlg>) {
        self.elem.set_mapped(true);
        Ok(self.dup())
    }

    fn unmap(&mut self) {
        self.elem.set_mapped(false);
    }

    fn show(&mut self) -> (r: Result<(), String>) {
        self.elem.set_attrib("VISIBLE", "YES");
        self.elem.set_mapped(true);
        Ok(())
    }

    fn conceal(&mut self) -> (r: MessageDlg) {
        self.elem.set_attrib("VISIBLE", "NO");
        self.dup()
    }
}

impl DialogElement for MessageDlg {
    fn showxy(&mut self, x: DialogPos, y: DialogPos) -> (r: Result<(), String>) {
        self.elem.set_attrib("VISIBLE", "YES");
        self.elem.set_mapped(true);
        Ok(())
    }

    fn popup(&mut self, x: DialogPos, y: DialogPos) -> (r: Result<MessageDlg, MessageDlg>) {
        self.elem.set_attrib("VISIBLE", "YES");
        self.elem.set_mapped(true);
        Ok(self.dup())
    }
}

/// A path as the file dialog reports one: the directory part, a single
/// `/`, and the file name.  A separator the directory already ends with is
/// not doubled, and an empty directory part adds none.
pub open spec fn path_join(dir: Seq<char>, f: Seq<char>) -> Seq<char> {
    if dir.len() == 0 {
        f
    } else if dir.last() == '/' {
        dir + f
    } else {
        dir + seq!['/'] + f
    }
}

/// The selected files a `VALUE` attribute stands for.  A single part is one
/// path; several parts name a directory first and then the files inside it.
pub open spec fn files_list_spec(v: Seq<char>) -> Seq<Seq<char>> {
    let parts = split_terminator_spec(v, '|');
    if parts.len() <= 1 {
        parts
    } else {
        parts.drop_first().map_values(|f: Seq<char>| path_join(parts[0], f))
    }
}

/// A predefined dialog for selecting files or a directory.
pub struct FileDlg {
    pub elem: Elem,
}

impl FileDlg {
    pub fn new() -> (r: FileDlg)
        ensures
            r.elem.wf(),
            r.elem.abs().attrs == Map::<Seq<char>, Seq<char>>::empty(),
            !r.elem.abs().mapped,
    {
        FileDlg { elem: Elem::new() }
    }

    /// A dialog for opening a file.
    pub fn new_open() -> (r: FileDlg)
        ensures
            r.elem.wf(),
            r.elem.abs().attrs == Map::<Seq<char>, Seq<char>>::empty().insert(
                "DIALOGTYPE"@,
                "OPEN"@,
            ),
            !r.elem.abs().mapped,
    {
        let mut d = FileDlg::new();
        d.elem.set_attrib("DIALOGTYPE", "OPEN");
        d
    }

    /// A dialog for saving a file.
    pub fn new_save() -> (r: FileDlg)
        ensures
            r.elem.wf(),
            r.elem.abs().attrs == Map::<Seq<char>, Seq<char>>::empty().insert(
                "DIALOGTYPE"@,
                "SAVE"@,
            ),
            !r.elem.abs().mapped,
    {
        let mut d = FileDlg::new();
        d.elem.set_attrib("DIALOGTYPE", "SAVE");
        d
    }

    /// A dialog for selecting a directory.
    pub fn new_dir() -> (r: FileDlg)
        ensures
            r.elem.wf(),
            r.elem.abs().attrs == Map::<Seq<char>, Seq<char>>::empty().insert(
                "DIALOGTYPE"@,
                "DIR"@,
            ),
            !r.elem.abs().mapped,
    {
        let mut d = FileDlg::new();
        d.elem.set_attrib("DIALOGTYPE", "DIR");
        d
    }

    /// The selected files, decoded from the `VALUE` attribute: either one
    /// path, or a directory followed by the file names inside it.
    pub fn files(&self) -> (r: Option<Vec<String>>)
        requires
            self.elem.wf(),
        ensures
            match r {
                Some(fs) => {
                    &&& self.elem.abs().attrs.dom().contains("VALUE"@)
                    &&& fs@.len() == files_list_spec(self.elem.abs().attrs["VALUE"@]).len()
                    &&& fs@.len() > 0
                    &&& forall|i: int|
                        0 <= i < fs@.len() ==> (#[trigger] fs@[i])@ == files_list_spec(
                            self.elem.abs().attrs["VALUE"@],
                        )[i]
                },
                None => !self.elem.abs().attrs.dom().contains("VALUE"@) || files_list_spec(
                    self.elem.abs().attrs["VALUE"@],
                ).len() == 0,
            },
    {
        let value = self.elem.attrib("VALUE");
        match value {
            None => None,
            Some(v) => {
                let parts = split_terminator_str(v.as_str(), '|');
                let n = parts.len();
                if n == 0 {
                    None
                } else if n == 1 {
                    let mut out: Vec<String> = Vec::new();
                    out.push(parts[0].clone());
                    Some(out)
                } else {
                    let ghost spec_parts = split_terminator_spec(v@, '|');
                    let ghost out_spec = files_list_spec(v@);
                    proof {
                        assert(out_spec.len() == n - 1);
                    }
                    let mut out: Vec<String> = Vec::new();
                    let dir = parts[0].clone();
                    let dlen = dir.as_str().unicode_len();
                    let dir_slash = dlen > 0 && dir.as_str().get_char(dlen - 1) == '/';
                    proof {
                        reveal_strlit("/");
                        assert("/"@ =~= seq!['/']);
                    }
                    let mut k: usize = 1;
                    while k < n
                        invariant
                            1 <= k <= n,
                            n == spec_parts.len(),
                            n >= 2,
                            out_spec == files_list_spec(v@),
                            spec_parts == split_terminator_spec(v@, '|'),
                            out_spec.len() == n - 1,
                            forall|i: int|
                                0 <= i < n ==> (#[trigger] parts@[i])@ == spec_parts[i],
                            parts@.len() == n,
                            dir@ == spec_parts[0],
                            dlen == dir@.len(),
                            dir_slash == (dir@.len() > 0 && dir@.last() == '/'),
                            "/"@ == seq!['/'],
                            out@.len() == k - 1,
                            forall|i: int|
                                0 <= i < k - 1 ==> (#[trigger] out@[i])@ == out_spec[i],
                        decreases n - k,
                    {
                        let joined = if dlen == 0 {
                            parts[k].clone()
                        } else if dir_slash {
                            dir.clone().concat(parts[k].as_str())
                        } else {
                            dir.clone().concat("/").concat(parts[k].as_str())
                        };
                        proof {
                            assert(out_spec[k as int - 1] == path_join(
                                spec_parts[0],
                                spec_parts.drop_first()[k as int - 1],
                            ));
                            assert(spec_parts.drop_first()[k as int - 1] == spec_parts[k as int]);
                            assert(joined@ == path_join(spec_parts[0], spec_parts[k as int]));
                        }
                        out.push(joined);
                        k = k + 1;
                    }
                    Some(out)
                }
            },
        }
    }

    /// The `VALUE` attribute as a single path, if set.
    pub fn path(&self) -> (r: Option<String>)
        requires
            self.elem.wf(),
        ensures
            match r {
                Some(v) => self.elem.abs().attrs.dom().contains("VALUE"@) && v@
                    == self.elem.abs().attrs["VALUE"@],
                None => !self.elem.abs().attrs.dom().contains("VALUE"@),
            },
    {
        self.elem.attrib("VALUE")
    }
}

impl Element for FileDlg {
    open spec fn spec_elem(&self) -> Elem {
        self.elem
    }

    open spec fn classname_spec() -> Seq<char> {
        "filedlg"@
    }

    fn target_classname() -> (r: &'static str) {
        "filedlg"
    }

    fn elem(&self) -> (r: &Elem) {
        &self.elem
    }

    fn from_elem(e: Elem) -> (r: FileDlg) {
        FileDlg { elem: e }
    }

    fn dup(&self) -> (r: FileDlg) {
        FileDlg { elem: self.elem.clone() }
    }
}

impl Widget for FileDlg {
    fn map(&mut self) -> (r: Result<FileDlg, FileDlg>) {
        self.elem.set_mapped(true);
        Ok(self.dup())
    }

    fn unmap(&mut self) {
        self.elem.set_mapped(false);
    }

    fn show(&mut self) -> (r: Result<(), String>) {
        self.elem.set_attrib("VISIBLE", "YES");
        self.elem.set_mapped(true);
        Ok(())
    }

    fn conceal(&mut self) -> (r: FileDlg) {
        self.elem.set_attrib("VISIBLE", "NO");
        self.dup()
    }
}

impl DialogElement for FileDlg {
    fn showxy(&mut self, x: DialogPos, y: DialogPos) -> (r: Result<(), String>) {
        self.elem.set_attrib("VISIBLE", "YES");
        self.elem.set_mapped(true);
        Ok(())
    }

    fn popup(&mut self, x: DialogPos, y: DialogPos) -> (r: Result<FileDlg, FileDlg>) {
        self.elem.set_attrib("VISIBLE", "YES");
        self.elem.set_mapped(true);
        Ok(self.dup())
    }
}

} // verus!

//! Access to the system clipboard.
//!
//! The clipboard element speaks through attributes: `TEXT` carries text,
//! `FORMAT` / `FORMATDATA` / `FORMATDATASIZE` carry data in a registered
//! custom format, and the `*AVAILABLE` attributes report what the system
//! clipboard currently offers.

use vstd::prelude::*;
use crate::codec::dec_digits;
use crate::codec::spec_decode_bool;
use crate::element::Elem;
use crate::element::Element;
use crate::element::Handle;
use crate::image::ImageElement;

verus! {

fn clone_bytes(v: &Vec<u8>) -> (r: Vec<u8>)
    ensures
        r@ == v@,
{
    let mut out: Vec<u8> = Vec::new();
    let n = v.len();
    let mut i: usize = 0;
    while i < n
        invariant
            i <= n,
            n == v@.len(),
            out@.len() == i,
            forall|j: int| 0 <= j < i ==> #[trigger] out@[j] == v@[j],
        decreases n - i,
    {
        out.push(v[i]);
        i = i + 1;
    }
    proof {
        assert(out@ =~= v@);
    }
    out
}

/// An element giving access to the clipboard.
pub struct Clipboard {
    pub elem: Elem,
    /// The raw payload last placed on the clipboard in a custom format,
    /// which the toolkit addresses through the `FORMATDATA` attribute.
    pub payload: Option<Vec<u8>>,
    /// The image last placed on the clipboard, addressed through the
    /// `IMAGE` attribute.
    pub image: Option<Handle>,
}

impl Clipboard {
    /// A clipboard accessor.
    pub fn new() -> (r: Clipboard)
        ensures
            r.elem.wf(),
            r.elem.abs().attrs == Map::<Seq<char>, Seq<char>>::empty(),
            !r.elem.abs().mapped,
            r.payload is None,
            r.image is None,
    {
        Clipboard { elem: Elem::new(), payload: None, image: None }
    }

    /// Clears any custom-format data held for the clipboard.
    pub fn clear(&mut self) -> (r: Clipboard)
        requires
            old(self).elem.wf(),
        ensures
            final(self).elem.wf(),
            final(self).elem.abs() == old(self).elem.abs(),
            final(self).payload is None,
            final(self).image == old(self).image,
            r.elem.abs() == final(self).elem.abs(),
            r.payload is None,
    {
        self.payload = None;
        self.dup()
    }

    /// Registers a custom clipboard format by name.
    pub fn add_format(&mut self, format: &str) -> (r: Clipboard)
        requires
            old(self).elem.wf(),
        ensures
            final(self).elem.wf(),
            final(self).elem.abs().attrs == old(self).elem.abs().attrs.insert(
                "ADDFORMAT"@,
                format@,
            ),
            final(self).elem.abs().mapped == old(self).elem.abs().mapped,
            final(self).payload == old(self).payload,
            final(self).image == old(self).image,
            r.elem.abs() == final(self).elem.abs(),
    {
        self.elem.set_attrib("ADDFORMAT", format);
        self.dup()
    }

    /// Whether text is available on the clipboard, per the reported
    /// `TEXTAVAILABLE` attribute.
    pub fn has_text(&mut self) -> (r: bool)
        requires
            old(self).elem.wf(),
            old(self).elem.abs().attrs.dom().contains("TEXTAVAILABLE"@),
            spec_decode_bool(old(self).elem.abs().attrs["TEXTAVAILABLE"@]) is Some,
        ensures
            *final(self) == *old(self),
            Some(r) == spec_decode_bool(old(self).elem.abs().attrs["TEXTAVAILABLE"@]),
    {
        let v = self.elem.attrib_bool("TEXTAVAILABLE");
        v.unwrap()
    }

    /// Copies text onto the clipboard.
    pub fn set_text(&mut self, text: &str) -> (r: Clipboard)
        requires
            old(self).elem.wf(),
        ensures
            final(self).elem.wf(),
            final(self).elem.abs().attrs == old(self).elem.abs().attrs.insert("TEXT"@, text@),
            final(self).elem.abs().mapped == old(self).elem.abs().mapped,
            final(self).payload == old(self).payload,
            final(self).image == old(self).image,
            r.elem.abs() == final(self).elem.abs(),
    {
        self.elem.set_attrib("TEXT", text);
        self.dup()
    }

    /// The text held under the `TEXT` attribute, if any.
    pub fn text(&mut self) -> (r: Option<String>)
        requires
            old(self).elem.wf(),
        ensures
            *final(self) == *old(self),
            match r {
                Some(v) => old(self).elem.abs().attrs.dom().contains("TEXT"@)
                    && v@ == old(self).elem.abs().attrs["TEXT"@],
                None => !old(self).elem.abs().attrs.dom().contains("TEXT"@),
            },
    {
        self.elem.attrib("TEXT")
    }

    /// Whether an image is available on the clipboard, per the reported
    /// `IMAGEAVAILABLE` attribute.
    pub fn has_image(&mut self) -> (r: bool)
        requires
            old(self).elem.wf(),
            old(self).elem.abs().attrs.dom().contains("IMAGEAVAILABLE"@),
            spec_decode_bool(old(self).elem.abs().attrs["IMAGEAVAILABLE"@]) is Some,
        ensures
            *final(self) == *old(self),
            Some(r) == spec_decode_bool(old(self).elem.abs().attrs["IMAGEAVAILABLE"@]),
    {
        let v = self.elem.attrib_bool("IMAGEAVAILABLE");
        v.unwrap()
    }

    /// Copies an image onto the clipboard.
    pub fn set_image<I: ImageElement>(&mut self, image: &I) -> (r: Clipboard)
        requires
            old(self).elem.wf(),
        ensures
            final(self).elem.wf(),
            final(self).elem.abs() == old(self).elem.abs(),
            final(self).payload == old(self).payload,
            final(self).image matches Some(h) && h.class@ == I::classname_spec()
                && h.elem.abs() == image.spec_elem().abs(),
            r.elem.abs() == final(self).elem.abs(),
    {
        let h = crate::element::into_handle(image);
        self.image = Some(h);
        self.dup()
    }

    /// Whether data of the given format is available, per the reported
    /// `FORMATAVAILABLE` attribute.  Selects the format first.
    pub fn has_data(&mut self, format: &str) -> (r: bool)
        requires
            old(self).elem.wf(),
            old(self).elem.abs().attrs.dom().contains("FORMATAVAILABLE"@),
            spec_decode_bool(old(self).elem.abs().attrs["FORMATAVAILABLE"@]) is Some,
        ensures
            final(self).elem.wf(),
            final(self).elem.abs().attrs == old(self).elem.abs().attrs.insert("FORMAT"@, format@),
            final(self).elem.abs().mapped == old(self).elem.abs().mapped,
            final(self).payload == old(self).payload,
            final(self).image == old(self).image,
            Some(r) == spec_decode_bool(old(self).elem.abs().attrs["FORMATAVAILABLE"@]),
    {
        self.elem.set_attrib("FORMAT", format);
        proof {
            reveal_strlit("FORMAT");
            reveal_strlit("FORMATAVAILABLE");
            assert("FORMAT"@.len() == 6);
            assert("FORMATAVAILABLE"@.len() == 15);
            assert("FORMAT"@ != "FORMATAVAILABLE"@);
        }
        let v = self.elem.attrib_bool("FORMATAVAILABLE");
        v.unwrap()
    }

    /// Copies data in the given custom format onto the clipboard, recording
    /// its size under `FORMATDATASIZE`.
    pub fn set_data(&mut self, format: &str, data: &Vec<u8>) -> (r: Clipboard)
        requires
            old(self).elem.wf(),
            data@.len() <= u32::MAX,
        ensures
            final(self).elem.wf(),
            final(self).elem.abs().attrs == old(self).elem.abs().attrs.insert("FORMAT"@, format@)
                .insert("FORMATDATASIZE"@, dec_digits(data@.len() as nat)),
            final(self).elem.abs().mapped == old(self).elem.abs().mapped,
            final(self).payload matches Some(d) && d@ == data@,
            final(self).image == old(self).image,
            r.elem.abs() == final(self).elem.abs(),
    {
        self.elem.set_attrib("FORMAT", format);
        self.elem.set_attrib_u32("FORMATDATASIZE", data.len() as u32);
        self.payload = Some(clone_bytes(data));
        self.dup()
    }

    /// The data held for the given custom format, if any.  Selects the
    /// format first.
    pub fn data(&mut self, format: &str) -> (r: Option<Vec<u8>>)
        requires
            old(self).elem.wf(),
        ensures
            final(self).elem.wf(),
            final(self).elem.abs().attrs == old(self).elem.abs().attrs.insert("FORMAT"@, format@),
            final(self).elem.abs().mapped == old(self).elem.abs().mapped,
            final(self).payload == old(self).payload,
            final(self).image == old(self).image,
            match r {
                Some(d) => old(self).payload matches Some(p) && d@ == p@,
                None => old(self).payload is None,
            },
    {
        self.elem.set_attrib("FORMAT", format);
        match &self.payload {
            Some(d) => Some(clone_bytes(d)),
            None => None,
        }
    }
}

impl Element for Clipboard {
    open spec fn spec_elem(&self) -> Elem {
        self.elem
    }

    open spec fn classname_spec() -> Seq<char> {
        "clipboard"@
    }

    fn target_classname() -> (r: &'static str) {
        "clipboard"
    }

    fn elem(&self) -> (r: &Elem) {
        &self.elem
    }

    fn from_elem(e: Elem) -> (r: Clipboard) {
        Clipboard { elem: e, payload: None, image: None }
    }

    fn dup(&self) -> (r: Clipboard)
        ensures
            (r.payload is Some) == (self.payload is Some),
            self.payload matches Some(p) ==> (r.payload matches Some(d) && d@ == p@),
            (r.image is Some) == (self.image is Some),
            self.image matches Some(h0) ==> (r.image matches Some(h) && h.class == h0.class
                && h.elem.abs() == h0.elem.abs()),
    {
        let p = match &self.payload {
            Some(d) => Some(clone_bytes(d)),
            None => None,
        };
        let im = match &self.image {
            Some(h) => Some(h.clone()),
            None => None,
        };
        Clipboard { elem: self.elem.clone(), payload: p, image: im }
    }
}

} // verus!

//! A timer that periodically fires an action.

use vstd::prelude::*;
use crate::codec::all_digits;
use crate::codec::bool_text;
use crate::codec::dec_digits;
use crate::codec::dec_val;
use crate::codec::spec_decode_bool;
use crate::element::Elem;
use crate::element::Element;

verus! {

/// A timer.  Its interval lives in the `TIME` attribute and its running
/// state in the `RUN` attribute.
pub struct Timer {
    pub elem: Elem,
}

impl Timer {
    /// A stopped timer with no interval set.
    pub fn new() -> (r: Timer)
        ensures
            r.elem.wf(),
            r.elem.abs().attrs == Map::<Seq<char>, Seq<char>>::empty(),
            !r.elem.abs().mapped,
    {
        Timer { elem: Elem::new() }
    }

    /// The set time interval in milliseconds, or `None` if not set.
    pub fn time(&self) -> (r: Option<u32>)
        requires
            self.elem.wf(),
        ensures
            match r {
                Some(v) => {
                    &&& self.elem.abs().attrs.dom().contains("TIME"@)
                    &&& all_digits(self.elem.abs().attrs["TIME"@])
                    &&& self.elem.abs().attrs["TIME"@].len() > 0
                    &&& v as nat == dec_val(self.elem.abs().attrs["TIME"@])
                },
                None => !self.elem.abs().attrs.dom().contains("TIME"@)
                    || self.elem.abs().attrs["TIME"@].len() == 0
                    || !all_digits(self.elem.abs().attrs["TIME"@])
                    || dec_val(self.elem.abs().attrs["TIME"@]) > u32::MAX,
            },
    {
        self.elem.attrib_u32("TIME")
    }

    /// Sets the time interval in milliseconds.
    pub fn set_time(&mut self, time: u32) -> (r: Timer)
        requires
            old(self).elem.wf(),
        ensures
            final(self).elem.wf(),
            final(self).elem.abs().attrs == old(self).elem.abs().attrs.insert(
                "TIME"@,
                dec_digits(time as nat),
            ),
            final(self).elem.abs().mapped == old(self).elem.abs().mapped,
            r.elem.abs() == final(self).elem.abs(),
    {
        self.elem.set_attrib_u32("TIME", time);
        self.dup()
    }

    /// Starts the timer.
    pub fn run(&mut self) -> (r: Timer)
        requires
            old(self).elem.wf(),
        ensures
            final(self).elem.wf(),
            final(self).elem.abs().attrs == old(self).elem.abs().attrs.insert("RUN"@, "YES"@),
            final(self).elem.abs().mapped == old(self).elem.abs().mapped,
            r.elem.abs() == final(self).elem.abs(),
    {
        self.elem.set_attrib("RUN", "YES");
        self.dup()
    }

    /// Stops the timer.
    pub fn stop(&mut self) -> (r: Timer)
        requires
            old(self).elem.wf(),
        ensures
            final(self).elem.wf(),
            final(self).elem.abs().attrs == old(self).elem.abs().attrs.insert("RUN"@, "NO"@),
            final(self).elem.abs().mapped == old(self).elem.abs().mapped,
            r.elem.abs() == final(self).elem.abs(),
    {
        self.elem.set_attrib("RUN", "NO");
        self.dup()
    }

    /// The current running state.
    pub fn is_running(&self) -> (r: bool)
        requires
            self.elem.wf(),
            self.elem.abs().attrs.dom().contains("RUN"@),
            spec_decode_bool(self.elem.abs().attrs["RUN"@]) is Some,
        ensures
            Some(r) == spec_decode_bool(self.elem.abs().attrs["RUN"@]),
    {
        let v = self.elem.attrib_bool("RUN");
        v.unwrap()
    }

    /// A started timer reports itself running, and a stopped one stopped.
    pub proof fn lemma_run_state_round_trip(t0: Timer, t1: Timer, started: bool)
        requires
            t1.elem.abs().attrs == t0.elem.abs().attrs.insert("RUN"@, bool_text(started)),
        ensures
            spec_decode_bool(t1.elem.abs().attrs["RUN"@]) == Some(started),
    {
        crate::codec::lemma_bool_round_trip(started);
    }
}

impl Element for Timer {
    open spec fn spec_elem(&self) -> Elem {
        self.elem
    }

    open spec fn classname_spec() -> Seq<char> {
        "timer"@
    }

    fn target_classname() -> (r: &'static str) {
        "timer"
    }

    fn elem(&self) -> (r: &Elem) {
        &self.elem
    }

    fn from_elem(e: Elem) -> (r: Timer) {
        Timer { elem: e }
    }

    fn dup(&self) -> (r: Timer) {
        Timer { elem: self.elem.clone() }
    }
}

} // verus!

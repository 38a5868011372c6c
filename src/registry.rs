use vstd::prelude::*;

use crate::frame::{
    absorb, format_known_for, initial_view, outcome, FrameEvent, FrameView, ProtocolViolation,
    WlrScreencopyFrame,
};
use crate::wire::known_shm_format;

verus! {

/// Whether some frame in `s` is registered under `id`.
pub open spec fn has_frame(s: Seq<FrameView>, id: u32) -> bool {
    exists|i: int| 0 <= i < s.len() && s[i].id == id
}

/// The position of the first frame in `s` registered under `id`, or -1.
pub open spec fn slot_of(s: Seq<FrameView>, id: u32) -> int
    decreases s.len(),
{
    if s.len() == 0 {
        -1
    } else if s[0].id == id {
        0
    } else {
        let k = slot_of(s.drop_first(), id);
        if k < 0 {
            k
        } else {
            k + 1
        }
    }
}

/// What routing `e` to the frame registered under `id` reports.
pub open spec fn route_outcome(s: Seq<FrameView>, id: u32, e: FrameEvent, format_known: bool) -> Result<
    (),
    ProtocolViolation,
> {
    let k = slot_of(s, id);
    if k >= 0 {
        outcome(s[k], e, format_known)
    } else {
        Err(ProtocolViolation::UnknownFrame)
    }
}

proof fn lemma_slot_of(s: Seq<FrameView>, id: u32)
    ensures
        -1 <= slot_of(s, id) < s.len(),
        (slot_of(s, id) >= 0) == has_frame(s, id),
        slot_of(s, id) >= 0 ==> s[slot_of(s, id)].id == id,
    decreases s.len(),
{
    if s.len() > 0 && s[0].id != id {
        let t = s.drop_first();
        lemma_slot_of(t, id);
        if has_frame(s, id) {
            let i = choose|i: int| 0 <= i < s.len() && s[i].id == id;
            assert(t[i - 1].id == id);
        }
        if slot_of(t, id) >= 0 {
            assert(s[slot_of(t, id) + 1] == t[slot_of(t, id)]);
        }
    } else if s.len() > 0 {
        assert(s[0].id == id);
    }
}

proof fn lemma_first_slot(s: Seq<FrameView>, id: u32, i: int)
    requires
        0 <= i < s.len(),
        s[i].id == id,
        forall|j: int| 0 <= j < i ==> s[j].id != id,
    ensures
        slot_of(s, id) == i,
    decreases i,
{
    if i > 0 {
        let t = s.drop_first();
        assert forall|j: int| 0 <= j < i - 1 implies t[j].id != id by {
            assert(t[j] == s[j + 1]);
        }
        lemma_first_slot(t, id, i - 1);
    }
}

/// No two frames share an identity.
pub open spec fn distinct_ids(s: Seq<FrameView>) -> bool {
    forall|i: int, j: int| 0 <= i < s.len() && 0 <= j < s.len() && s[i].id == s[j].id ==> i == j
}

/// The frames after routing `e` to the frame registered under `id`; every
/// other frame stays as it was.
pub open spec fn route(s: Seq<FrameView>, id: u32, e: FrameEvent, format_known: bool) -> Seq<
    FrameView,
> {
    Seq::new(s.len(), |i: int| if s[i].id == id { absorb(s[i], e, format_known) } else { s[i] })
}

/// The frames after routing each tagged event in order, each with its own
/// format lookup.
pub open spec fn route_all(s: Seq<FrameView>, tagged: Seq<(u32, FrameEvent)>) -> Seq<FrameView>
    decreases tagged.len(),
{
    if tagged.len() == 0 {
        s
    } else {
        let (id, e) = tagged.last();
        route(route_all(s, tagged.drop_last()), id, e, format_known_for(e))
    }
}

/// The events of `tagged` that are addressed to `id`, in order.
pub open spec fn events_for(tagged: Seq<(u32, FrameEvent)>, id: u32) -> Seq<FrameEvent>
    decreases tagged.len(),
{
    if tagged.len() == 0 {
        Seq::empty()
    } else {
        let rest = events_for(tagged.drop_last(), id);
        if tagged.last().0 == id {
            rest.push(tagged.last().1)
        } else {
            rest
        }
    }
}

/// The registry of outstanding captures, keyed by the identity of each
/// frame's capture object.
pub struct WlrScreencopyState {
    frames: Vec<WlrScreencopyFrame>,
}

impl View for WlrScreencopyState {
    type V = Seq<FrameView>;

    closed spec fn view(&self) -> Seq<FrameView> {
        self.frames@.map_values(|f: WlrScreencopyFrame| f@)
    }
}

impl WlrScreencopyState {
    /// Every frame is registered under an identity of its own. `new`
    /// establishes this and every method that changes the registry keeps it.
    pub open spec fn wf(&self) -> bool {
        distinct_ids(self@)
    }

    /// An empty registry.
    pub fn new() -> (r: Self)
        ensures
            r.wf(),
            r@ == Seq::<FrameView>::empty(),
    {
        let r = WlrScreencopyState { frames: Vec::new() };
        assert(r@ =~= Seq::<FrameView>::empty());
        r
    }

    /// Registers a fresh frame for the capture object `id`, just issued on
    /// some output. An identity already in use is refused.
    pub fn capture_output(&mut self, id: u32) -> (r: Result<(), ProtocolViolation>)
        requires
            old(self).wf(),
        ensures
            final(self).wf(),
            has_frame(old(self)@, id) ==> r == Err::<(), ProtocolViolation>(
                ProtocolViolation::DuplicateFrame,
            ) && final(self)@ == old(self)@,
            !has_frame(old(self)@, id) ==> r is Ok && final(self)@ == old(self)@.push(
                initial_view(id),
            ),
    {
        if self.find(id).is_some() {
            return Err(ProtocolViolation::DuplicateFrame);
        }
        let f = WlrScreencopyFrame::new(id);
        self.frames.push(f);
        assert(self@ =~= old(self)@.push(initial_view(id)));
        Ok(())
    }

    /// The slot of the frame registered under `id`.
    fn find(&self, id: u32) -> (r: Option<usize>)
        ensures
            r is None <==> !has_frame(self@, id),
            r matches Some(i) ==> i < self@.len() && self@[i as int].id == id && i == slot_of(
                self@,
                id,
            ),
    {
        let mut i: usize = 0;
        while i < self.frames.len()
            invariant
                i <= self.frames@.len(),
                self@.len() == self.frames@.len(),
                forall|j: int| 0 <= j < i ==> self@[j].id != id,
            decreases self.frames@.len() - i,
        {
            if self.frames[i].id() == id {
                proof {
                    lemma_first_slot(self@, id, i as int);
                }
                return Some(i);
            }
            i = i + 1;
        }
        None
    }

    /// The frame registered under `id`, for the consumer to read.
    pub fn frame(&self, id: u32) -> (r: Option<&WlrScreencopyFrame>)
        ensures
            r is None <==> !has_frame(self@, id),
            r matches Some(f) ==> f@ == self@[slot_of(self@, id)],
    {
        proof {
            lemma_slot_of(self@, id);
        }
        match self.find(id) {
            Some(i) => Some(&self.frames[i]),
            None => None,
        }
    }

    /// Routes `e` to the frame registered under `id`, given whether a
    /// shared-memory offer's format is one that `wl_shm` defines.
    pub fn route_event(&mut self, id: u32, e: FrameEvent, format_known: bool) -> (r: Result<
        (),
        ProtocolViolation,
    >)
        requires
            old(self).wf(),
        ensures
            final(self).wf(),
            final(self)@ == route(old(self)@, id, e, format_known),
            r == route_outcome(old(self)@, id, e, format_known),
            !has_frame(old(self)@, id) ==> r == Err::<(), ProtocolViolation>(
                ProtocolViolation::UnknownFrame,
            ),
    {
        proof {
            lemma_slot_of(old(self)@, id);
        }
        match self.find(id) {
            None => {
                assert(self@ =~= route(old(self)@, id, e, format_known));
                Err(ProtocolViolation::UnknownFrame)
            },
            Some(i) => {
                proof {
                    lemma_slot_of(old(self)@, id);
                }
                let r = self.frames[i].handle_event(e, format_known);
                assert(self@ =~= route(old(self)@, id, e, format_known));
                r
            },
        }
    }

    /// Routes `e` to the frame registered under `id`, looking up a
    /// shared-memory offer's format in `wl_shm`.
    pub fn event(&mut self, id: u32, e: FrameEvent) -> (r: Result<(), ProtocolViolation>)
        requires
            old(self).wf(),
        ensures
            final(self).wf(),
            final(self)@ == route(old(self)@, id, e, format_known_for(e)),
            !has_frame(old(self)@, id) ==> r == Err::<(), ProtocolViolation>(
                ProtocolViolation::UnknownFrame,
            ),
            r == route_outcome(old(self)@, id, e, format_known_for(e)),
    {
        let format_known = match e {
            FrameEvent::Buffer { format, .. } => known_shm_format(format),
            _ => true,
        };
        self.route_event(id, e, format_known)
    }
}

} // verus!

use vstd::prelude::*;

use crate::wire::{known_frame_flags, known_shm_format, shm_format_known};

verus! {

/// One buffer layout that the compositor offers to write a capture into.
#[derive(Clone, Copy, Debug, PartialEq, Eq, Structural)]
pub enum BufferType {
    /// A shared-memory buffer; `format` is a `wl_shm.format` code.
    WlShm { format: u32, width: u32, height: u32, stride: u32 },
    /// A dma-buf backed buffer; `format` is a DRM fourcc code.
    LinuxDmabuf { format: u32, width: u32, height: u32 },
}

/// Outcome of a capture: pending, failed, or ready with the presentation
/// time split as (seconds high word, seconds low word, nanoseconds).
#[derive(Clone, Copy, Debug, PartialEq, Eq)]
pub enum FrameStatus {
    NotReady,
    Failed,
    Ready((u32, u32, u32)),
}

/// An event that the compositor sends for one capture frame.
#[derive(Clone, Copy, Debug, PartialEq, Eq, Structural)]
pub enum FrameEvent {
    Buffer { format: u32, width: u32, height: u32, stride: u32 },
    LinuxDmabuf { format: u32, width: u32, height: u32 },
    BufferDone,
    Flags { flags: u32 },
    Damage { x: u32, y: u32, width: u32, height: u32 },
    Ready { tv_sec_hi: u32, tv_sec_lo: u32, tv_nsec: u32 },
    Failed,
}

/// A structural defect in the event stream or in the registration of frames.
#[derive(Clone, Copy, Debug, PartialEq, Eq, Structural)]
pub enum ProtocolViolation {
    /// The event names an object that no registered frame owns.
    UnknownFrame,
    /// A frame is registered under an identity that is already in use.
    DuplicateFrame,
    /// The event is not allowed in the frame's current phase.
    OutOfOrder,
    /// A shared-memory offer carries a format code that `wl_shm` does not define.
    UnknownFormat,
    /// A flags event sets bits that the protocol does not define.
    UnknownFlags,
}

/// The copy request to send: on which frame object, into which buffer object.
#[derive(Clone, Copy, Debug, PartialEq, Eq, Structural)]
pub struct CopyRequest {
    pub frame: u32,
    pub buffer: u32,
}

/// Mathematical state of a frame.
pub ghost struct FrameView {
    pub id: u32,
    pub buffers: Seq<BufferType>,
    pub done: bool,
    pub flags: Option<u32>,
    pub status: FrameStatus,
}

/// The state of a frame just after the capture request was issued.
pub open spec fn initial_view(id: u32) -> FrameView {
    FrameView { id, buffers: Seq::empty(), done: false, flags: None, status: FrameStatus::NotReady }
}

pub open spec fn is_terminal(s: FrameStatus) -> bool {
    !(s is NotReady)
}

/// The offered layouts as a consumer may see them: nothing until
/// negotiation has closed, then every offer in arrival order.
pub open spec fn visible_buffers(v: FrameView) -> Seq<BufferType> {
    if v.done {
        v.buffers
    } else {
        Seq::empty()
    }
}

/// Whether the wire-level payload of `e` is acceptable on its own; only
/// shared-memory offers depend on a lookup (`format_known`).
pub open spec fn payload_error(e: FrameEvent, format_known: bool) -> Option<ProtocolViolation> {
    match e {
        FrameEvent::Buffer { .. } => if format_known {
            None
        } else {
            Some(ProtocolViolation::UnknownFormat)
        },
        FrameEvent::Flags { flags } => if flags == 0 || flags == 1 {
            None
        } else {
            Some(ProtocolViolation::UnknownFlags)
        },
        _ => None,
    }
}

/// Whether `e` may arrive in the phase that `v` is in: offers and the
/// closing of negotiation before it closes; flags at most once, damage and
/// the terminal event after it; nothing once the frame is terminal.
pub open spec fn in_order(v: FrameView, e: FrameEvent) -> bool {
    v.status is NotReady && match e {
        FrameEvent::Buffer { .. } => !v.done,
        FrameEvent::LinuxDmabuf { .. } => !v.done,
        FrameEvent::BufferDone => !v.done,
        FrameEvent::Flags { .. } => v.done && v.flags is None,
        FrameEvent::Damage { .. } => v.done,
        FrameEvent::Ready { .. } => v.done,
        FrameEvent::Failed => v.done,
    }
}

/// The error that `e` raises on `v`, if any.
pub open spec fn event_error(v: FrameView, e: FrameEvent, format_known: bool) -> Option<
    ProtocolViolation,
> {
    if !in_order(v, e) {
        Some(ProtocolViolation::OutOfOrder)
    } else {
        payload_error(e, format_known)
    }
}

/// The state after an accepted event.
pub open spec fn accept(v: FrameView, e: FrameEvent) -> FrameView {
    match e {
        FrameEvent::Buffer { format, width, height, stride } => FrameView {
            buffers: v.buffers.push(BufferType::WlShm { format, width, height, stride }),
            ..v
        },
        FrameEvent::LinuxDmabuf { format, width, height } => FrameView {
            buffers: v.buffers.push(BufferType::LinuxDmabuf { format, width, height }),
            ..v
        },
        FrameEvent::BufferDone => FrameView { done: true, ..v },
        FrameEvent::Flags { flags } => FrameView { flags: Some(flags), ..v },
        FrameEvent::Damage { .. } => v,
        FrameEvent::Ready { tv_sec_hi, tv_sec_lo, tv_nsec } => FrameView {
            status: FrameStatus::Ready((tv_sec_hi, tv_sec_lo, tv_nsec)),
            ..v
        },
        FrameEvent::Failed => FrameView { status: FrameStatus::Failed, ..v },
    }
}

/// What handling `e` reports.
pub open spec fn outcome(v: FrameView, e: FrameEvent, format_known: bool) -> Result<
    (),
    ProtocolViolation,
> {
    match event_error(v, e, format_known) {
        Some(err) => Err(err),
        None => Ok(()),
    }
}

/// The state after handling `e`: a rejected event leaves the frame as it was.
pub open spec fn absorb(v: FrameView, e: FrameEvent, format_known: bool) -> FrameView {
    if event_error(v, e, format_known) is None {
        accept(v, e)
    } else {
        v
    }
}

/// The format lookup that the event needs, as the wire module performs it.
pub open spec fn format_known_for(e: FrameEvent) -> bool {
    match e {
        FrameEvent::Buffer { format, .. } => shm_format_known(format),
        _ => true,
    }
}

/// Handles `es` in order, each with its own format lookup.
pub open spec fn absorb_all(v: FrameView, es: Seq<FrameEvent>) -> FrameView
    decreases es.len(),
{
    if es.len() == 0 {
        v
    } else {
        let w = absorb_all(v, es.drop_last());
        absorb(w, es.last(), format_known_for(es.last()))
    }
}

/// The state machine of one capture request.
pub struct WlrScreencopyFrame {
    id: u32,
    buffers: Vec<BufferType>,
    buffers_done: bool,
    flags: Option<u32>,
    status: FrameStatus,
}

impl View for WlrScreencopyFrame {
    type V = FrameView;

    closed spec fn view(&self) -> FrameView {
        FrameView {
            id: self.id,
            buffers: self.buffers@,
            done: self.buffers_done,
            flags: self.flags,
            status: self.status,
        }
    }
}

impl WlrScreencopyFrame {
    /// A fresh frame for the capture object with identity `id`.
    pub fn new(id: u32) -> (f: Self)
        ensures
            f@ == initial_view(id),
    {
        WlrScreencopyFrame {
            id,
            buffers: Vec::new(),
            buffers_done: false,
            flags: None,
            status: FrameStatus::NotReady,
        }
    }

    /// The identity of the capture object this frame belongs to.
    pub fn id(&self) -> (r: u32)
        ensures
            r == self@.id,
    {
        self.id
    }

    /// The copy request for `buffer`. Sending it is the consumer's decision
    /// and changes nothing here: the frame moves only on compositor events.
    pub fn copy(&self, buffer: u32) -> (r: CopyRequest)
        ensures
            r == (CopyRequest { frame: self@.id, buffer }),
    {
        CopyRequest { frame: self.id, buffer }
    }

    /// The offered layouts: empty until negotiation has closed.
    pub fn buffer_types(&self) -> (r: Vec<BufferType>)
        ensures
            r@ == visible_buffers(self@),
    {
        let mut out: Vec<BufferType> = Vec::new();
        if !self.buffers_done {
            return out;
        }
        let mut i: usize = 0;
        while i < self.buffers.len()
            invariant
                i <= self.buffers@.len(),
                out@ == self.buffers@.subrange(0, i as int),
            decreases self.buffers@.len() - i,
        {
            out.push(self.buffers[i]);
            i = i + 1;
            assert(out@ =~= self.buffers@.subrange(0, i as int));
        }
        assert(out@ =~= self.buffers@);
        out
    }

    /// The capture flags, once the compositor has sent them.
    pub fn flags(&self) -> (r: Option<u32>)
        ensures
            r == self@.flags,
    {
        self.flags
    }

    /// A snapshot of the frame's outcome.
    pub fn status(&self) -> (r: FrameStatus)
        ensures
            r == self@.status,
    {
        self.status
    }

    /// Applies `e`, given whether a shared-memory offer's format is one that
    /// `wl_shm` defines. A rejected event leaves the frame unchanged.
    pub fn handle_event(&mut self, e: FrameEvent, format_known: bool) -> (r: Result<
        (),
        ProtocolViolation,
    >)
        ensures
            r == outcome(old(self)@, e, format_known),
            final(self)@ == absorb(old(self)@, e, format_known),
            is_terminal(old(self)@.status) ==> final(self)@ == old(self)@,
    {
        if !self.status_is_pending() {
            return Err(ProtocolViolation::OutOfOrder);
        }
        match e {
            FrameEvent::Buffer { format, width, height, stride } => {
                if self.buffers_done {
                    return Err(ProtocolViolation::OutOfOrder);
                }
                if !format_known {
                    return Err(ProtocolViolation::UnknownFormat);
                }
                self.buffers.push(BufferType::WlShm { format, width, height, stride });
            },
            FrameEvent::LinuxDmabuf { format, width, height } => {
                if self.buffers_done {
                    return Err(ProtocolViolation::OutOfOrder);
                }
                self.buffers.push(BufferType::LinuxDmabuf { format, width, height });
            },
            FrameEvent::BufferDone => {
                if self.buffers_done {
                    return Err(ProtocolViolation::OutOfOrder);
                }
                self.buffers_done = true;
            },
            FrameEvent::Flags { flags } => {
                if !self.buffers_done || self.flags.is_some() {
                    return Err(ProtocolViolation::OutOfOrder);
                }
                if !known_frame_flags(flags) {
                    return Err(ProtocolViolation::UnknownFlags);
                }
                self.flags = Some(flags);
            },
            FrameEvent::Damage { .. } => {
                if !self.buffers_done {
                    return Err(ProtocolViolation::OutOfOrder);
                }
            },
            FrameEvent::Ready { tv_sec_hi, tv_sec_lo, tv_nsec } => {
                if !self.buffers_done {
                    return Err(ProtocolViolation::OutOfOrder);
                }
                self.status = FrameStatus::Ready((tv_sec_hi, tv_sec_lo, tv_nsec));
            },
            FrameEvent::Failed => {
                if !self.buffers_done {
                    return Err(ProtocolViolation::OutOfOrder);
                }
                self.status = FrameStatus::Failed;
            },
        }
        Ok(())
    }

    /// Applies `e`, looking up a shared-memory offer's format in `wl_shm`.
    pub fn event(&mut self, e: FrameEvent) -> (r: Result<(), ProtocolViolation>)
        ensures
            r == outcome(old(self)@, e, format_known_for(e)),
            final(self)@ == absorb(old(self)@, e, format_known_for(e)),
    {
        let format_known = match e {
            FrameEvent::Buffer { format, .. } => known_shm_format(format),
            _ => true,
        };
        self.handle_event(e, format_known)
    }

    fn status_is_pending(&self) -> (r: bool)
        ensures
            r == (self@.status is NotReady),
    {
        match self.status {
            FrameStatus::NotReady => true,
            _ => false,
        }
    }
}

} // verus!

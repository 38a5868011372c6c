use vstd::prelude::*;

use crate::frame::{
    absorb, absorb_all, format_known_for, initial_view, is_terminal, visible_buffers, BufferType,
    FrameEvent, FrameView,
};
use crate::registry::{events_for, route_all};
use crate::wire::shm_format_known;

verus! {

/// Whether `e` offers a buffer layout that the frame will accept.
pub open spec fn is_valid_offer(e: FrameEvent) -> bool {
    match e {
        FrameEvent::Buffer { format, .. } => shm_format_known(format),
        FrameEvent::LinuxDmabuf { .. } => true,
        _ => false,
    }
}

/// The layout that an offer event describes.
pub open spec fn offered_layout(e: FrameEvent) -> BufferType {
    match e {
        FrameEvent::Buffer { format, width, height, stride } => BufferType::WlShm {
            format,
            width,
            height,
            stride,
        },
        FrameEvent::LinuxDmabuf { format, width, height } => BufferType::LinuxDmabuf {
            format,
            width,
            height,
        },
        _ => arbitrary(),
    }
}

proof fn lemma_offers_collected(id: u32, offers: Seq<FrameEvent>)
    requires
        forall|i: int| 0 <= i < offers.len() ==> is_valid_offer(#[trigger] offers[i]),
    ensures
        absorb_all(initial_view(id), offers) == (FrameView {
            buffers: offers.map_values(|e: FrameEvent| offered_layout(e)),
            ..initial_view(id)
        }),
    decreases offers.len(),
{
    if offers.len() > 0 {
        let rest = offers.drop_last();
        assert forall|i: int| 0 <= i < rest.len() implies is_valid_offer(#[trigger] rest[i]) by {
            assert(rest[i] == offers[i]);
        }
        lemma_offers_collected(id, rest);
        assert(is_valid_offer(offers[offers.len() - 1]));
        assert(offers.map_values(|e: FrameEvent| offered_layout(e)) =~= rest.map_values(
            |e: FrameEvent| offered_layout(e),
        ).push(offered_layout(offers.last())));
        let w = absorb_all(initial_view(id), rest);
        assert(absorb_all(initial_view(id), offers) == absorb(
            w,
            offers.last(),
            format_known_for(offers.last()),
        ));
    } else {
        assert(offers.map_values(|e: FrameEvent| offered_layout(e)) =~= Seq::<BufferType>::empty());
    }
}

/// A frame that receives only buffer offers shows no layouts, whatever was
/// offered; once negotiation closes it shows exactly the offered layouts, in
/// the order in which they arrived.
pub proof fn lemma_buffer_types_after_close(id: u32, offers: Seq<FrameEvent>)
    requires
        forall|i: int| 0 <= i < offers.len() ==> is_valid_offer(#[trigger] offers[i]),
    ensures
        visible_buffers(absorb_all(initial_view(id), offers)) == Seq::<BufferType>::empty(),
        visible_buffers(absorb_all(initial_view(id), offers.push(FrameEvent::BufferDone)))
            == offers.map_values(|e: FrameEvent| offered_layout(e)),
{
    lemma_offers_collected(id, offers);
    assert(offers.push(FrameEvent::BufferDone).drop_last() =~= offers);
}

/// Once a frame is ready or failed, no further events change it, its status
/// included.
pub proof fn lemma_terminal_is_final(v: FrameView, es: Seq<FrameEvent>)
    requires
        is_terminal(v.status),
    ensures
        absorb_all(v, es) == v,
        absorb_all(v, es).status == v.status,
    decreases es.len(),
{
    if es.len() > 0 {
        lemma_terminal_is_final(v, es.drop_last());
    }
}

proof fn lemma_absorb_all_keeps_id(v: FrameView, es: Seq<FrameEvent>)
    ensures
        absorb_all(v, es).id == v.id,
    decreases es.len(),
{
    if es.len() > 0 {
        lemma_absorb_all_keeps_id(v, es.drop_last());
    }
}

/// However the event streams of several frames interleave, each frame ends
/// up exactly as if it had received only the events addressed to it.
pub proof fn lemma_no_cross_talk(s: Seq<FrameView>, tagged: Seq<(u32, FrameEvent)>, k: int)
    requires
        0 <= k < s.len(),
    ensures
        route_all(s, tagged).len() == s.len(),
        route_all(s, tagged)[k] == absorb_all(s[k], events_for(tagged, s[k].id)),
    decreases tagged.len(),
{
    if tagged.len() > 0 {
        let rest = tagged.drop_last();
        let (id, e) = tagged.last();
        lemma_no_cross_talk(s, rest, k);
        let mine = events_for(rest, s[k].id);
        lemma_absorb_all_keeps_id(s[k], mine);
        if id == s[k].id {
            assert(mine.push(e).drop_last() =~= mine);
        }
    }
}

} // verus!

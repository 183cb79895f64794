//! What holds of every capture session: the shape of its states, and the
//! accounting of its native handles.

use super::error::CaptureFault;
use super::session::{
    owed, size_message, CaptureState, Handle, NativeCall, NativeReply, Outcome, Phase, Resource,
};
use vstd::prelude::*;

verus! {

/// The call whose success brings a resource into being.
pub open spec fn acquiring_call(resource: Resource) -> NativeCall {
    match resource {
        Resource::Context => NativeCall::AllocContext,
        Resource::CodecContext => NativeCall::OpenDecoder,
        Resource::Packet => NativeCall::AllocPacket,
        Resource::Frame => NativeCall::AllocFrame,
        Resource::TranscodeFrame => NativeCall::AllocScratch,
    }
}

/// The position of a resource in the release order.
pub open spec fn release_rank(resource: Resource) -> int {
    match resource {
        Resource::CodecContext => 0,
        Resource::TranscodeFrame => 1,
        Resource::Frame => 2,
        Resource::Packet => 3,
        Resource::Context => 4,
    }
}

impl CaptureState {
    /// Whether the device is open: context, backend and decoder are in place
    /// and the two buffers have been allocated.
    pub open spec fn opened(self) -> bool {
        &&& self.context == Handle::Live
        &&& self.input == Handle::Live
        &&& self.codec_context == Handle::Live
        &&& self.packet != Handle::Absent
        &&& self.frame != Handle::Absent
        &&& self.transcode_frame != Handle::Null
    }

    /// Whether nothing beyond the context and the backend has been acquired.
    pub open spec fn nothing_beyond_context(self) -> bool {
        &&& self.codec_context == Handle::Absent
        &&& self.packet == Handle::Absent
        &&& self.frame == Handle::Absent
        &&& self.transcode_frame == Handle::Absent
    }

    /// The states that a session can be in: in each phase, and while opening at
    /// each outstanding call, exactly the handles acquired so far are stored;
    /// bytes copied out by a read have the length of its destination.
    pub open spec fn wf(self) -> bool {
        match self.phase {
            Phase::Created => self == self.released(Phase::Created),
            Phase::Failed => self == self.released(Phase::Failed),
            Phase::Opening => match self.pending {
                NativeCall::AllocContext => self.nothing_beyond_context() && self.context
                    == Handle::Absent && self.input == Handle::Absent,
                NativeCall::FindInputFormat => self.nothing_beyond_context() && self.context
                    != Handle::Absent && self.input == Handle::Absent,
                NativeCall::OpenInput
                | NativeCall::FindStreamInfo
                | NativeCall::ListStreams
                | NativeCall::FindDecoder
                | NativeCall::OpenDecoder => self.nothing_beyond_context() && self.context
                    == Handle::Live && self.input == Handle::Live,
                NativeCall::AllocPacket => self.context == Handle::Live && self.input
                    == Handle::Live && self.codec_context == Handle::Live && self.packet
                    == Handle::Absent && self.frame == Handle::Absent && self.transcode_frame
                    == Handle::Absent,
                NativeCall::AllocFrame => self.context == Handle::Live && self.input
                    == Handle::Live && self.codec_context == Handle::Live && self.packet
                    != Handle::Absent && self.frame == Handle::Absent && self.transcode_frame
                    == Handle::Absent,
                _ => false,
            },
            Phase::Ready => self.opened(),
            Phase::Reading => self.opened() && self.packet == Handle::Live && self.frame
                == Handle::Live && match self.pending {
                NativeCall::ReadPacket | NativeCall::DecodePacket | NativeCall::DiscardPacket => true,
                NativeCall::AllocScratch => self.transcode_frame == Handle::Absent,
                NativeCall::ConvertFrame | NativeCall::CopyToBuffer => self.transcode_frame
                    == Handle::Live,
                NativeCall::ReleasePacket => self.transcode_frame == Handle::Live
                    && self.filled.len() == self.target_len,
                _ => false,
            },
        }
    }
}

/// A new session is in a valid state, and every operation leads from a valid
/// state to a valid state.
pub proof fn law_states_stay_valid(c: CaptureState, reply: NativeReply, len: usize)
    requires
        c.wf(),
    ensures
        CaptureState::created().wf(),
        c.init().0.wf(),
        c.read(len).0.wf(),
        c.step(reply).0.wf(),
{
}

/// A read refuses a picture whose packed size is not exactly the length of its
/// destination: the conversion's report of another size fails the read with
/// `InvalidBuffer`, nothing is copied, and the session stays open. The copy
/// is asked for only once the sizes agree, and bytes are delivered only in
/// the length of the destination.
pub proof fn law_wrong_size_is_refused(c: CaptureState, reply: NativeReply)
    requires
        c.wf(),
    ensures
        c.phase == Phase::Reading && c.pending == NativeCall::ConvertFrame ==> (match reply {
            NativeReply::Converted { required_size } => if required_size as int
                == c.target_len as int {
                c.step(reply).1 == Outcome::Call(NativeCall::CopyToBuffer)
            } else {
                c.step(reply).1 == (Outcome::Failed {
                    kind: CaptureFault::InvalidBuffer,
                    message: size_message(required_size as int, c.target_len as int),
                    release: Seq::empty(),
                }) && c.step(reply).0.phase == Phase::Ready && c.step(reply).0.filled.len() == 0
            },
            _ => c.step(reply) == (c, Outcome::Call(NativeCall::ConvertFrame)),
        }),
        c.step(reply).1 == Outcome::Call(NativeCall::CopyToBuffer) && c.pending
            != NativeCall::CopyToBuffer ==> c.pending == NativeCall::ConvertFrame && (
        reply matches NativeReply::Converted { required_size } && required_size as int
            == c.target_len as int),
        c.step(reply).1 matches Outcome::Filled(data) ==> data.len() == c.target_len,
{
}

/// Where opening fails, the session ends up holding nothing, and every handle
/// that it held goes to the driver for release; the one exception is the
/// format context after a failed `OpenInput`, which that call has freed itself.
pub proof fn law_failed_open_releases_everything(
    c: CaptureState,
    reply: NativeReply,
    resource: Resource,
)
    requires
        c.wf(),
        c.phase == Phase::Opening,
        c.step(reply).1 is Failed,
    ensures
        c.step(reply).0.holds_nothing(),
        c.step(reply).0.phase == Phase::Failed,
        c.handle(resource) == Handle::Live ==> c.step(reply).1->release.contains(resource) || (
        resource == Resource::Context && c.pending == NativeCall::OpenInput),
        c.step(reply).1->release.contains(resource) ==> c.handle(resource) == Handle::Live,
{
    let after = c.step(reply);
    let release = after.1->release;
    lemma_release_order(
        if c.pending == NativeCall::OpenInput {
            CaptureState { context: Handle::Absent, ..c }
        } else if c.pending == NativeCall::FindInputFormat {
            CaptureState { input: Handle::Live, ..c }
        } else {
            c
        },
        resource,
    );
}

/// A handle enters only an empty slot, and only by the call that acquires it; a
/// handle leaves only when the operation fails and hands it out for release
/// (or, for the format context, when `OpenInput` fails and frees it). So
/// between the start of a session and its end every acquisition is matched by
/// one release.
pub proof fn law_handles_are_accounted_for(c: CaptureState, reply: NativeReply, resource: Resource)
    requires
        c.wf(),
    ensures
        c.step(reply).0.handle(resource) == Handle::Live && c.handle(resource) != Handle::Live
            ==> c.handle(resource) == Handle::Absent && c.pending == acquiring_call(resource)
            && !(c.step(reply).1 is Failed),
        c.handle(resource) == Handle::Live && c.step(reply).0.handle(resource) != Handle::Live
            ==> c.step(reply).1 is Failed && (c.step(reply).1->release.contains(resource) || (
        resource == Resource::Context && c.pending == NativeCall::OpenInput)),
{
    if c.phase == Phase::Opening && c.step(reply).1 is Failed {
        law_failed_open_releases_everything(c, reply, resource);
    }
}

/// Whether a sequence of resources rises strictly by rank and stays below `bound`.
pub open spec fn rising(order: Seq<Resource>, bound: int) -> bool {
    &&& forall|i: int| 0 <= i < order.len() ==> release_rank(#[trigger] order[i]) < bound
    &&& forall|i: int, j: int|
        0 <= i < j < order.len() ==> release_rank(#[trigger] order[i]) < release_rank(
            #[trigger] order[j],
        )
}

/// Appending what is owed of the next resource keeps the order rising, and
/// adds that resource exactly when its handle is live.
proof fn lemma_owed_next(order: Seq<Resource>, handle: Handle, next: Resource, resource: Resource)
    requires
        rising(order, release_rank(next)),
    ensures
        rising(order + owed(handle, next), release_rank(next) + 1),
        (order + owed(handle, next)).contains(resource) <==> order.contains(resource) || (handle
            == Handle::Live && resource == next),
{
    let longer = order + owed(handle, next);
    if handle == Handle::Live {
        assert(longer =~= order.push(next));
        assert(longer[order.len() as int] == next);
        if order.contains(resource) {
            let k = choose|k: int| 0 <= k < order.len() && order[k] == resource;
            assert(longer[k] == resource);
        }
        if longer.contains(resource) {
            let k = choose|k: int| 0 <= k < longer.len() && longer[k] == resource;
            if k < order.len() {
                assert(order[k] == resource);
            }
        }
    } else {
        assert(longer =~= order);
    }
}

/// The release order lists exactly the live handles, each once, and by rank:
/// the decoder before the format context, the scratch frame before the plain
/// frame.
pub proof fn lemma_release_order(c: CaptureState, resource: Resource)
    ensures
        c.release_order().contains(resource) <==> c.handle(resource) == Handle::Live,
        c.release_order().no_duplicates(),
        rising(c.release_order(), 5),
{
    let s0 = Seq::<Resource>::empty();
    let s1 = s0 + owed(c.codec_context, Resource::CodecContext);
    let s2 = s1 + owed(c.transcode_frame, Resource::TranscodeFrame);
    let s3 = s2 + owed(c.frame, Resource::Frame);
    let s4 = s3 + owed(c.packet, Resource::Packet);
    let s5 = s4 + owed(c.context, Resource::Context);
    assert(s1 =~= owed(c.codec_context, Resource::CodecContext));
    assert(s5 == c.release_order());
    lemma_owed_next(s0, c.codec_context, Resource::CodecContext, resource);
    lemma_owed_next(s1, c.transcode_frame, Resource::TranscodeFrame, resource);
    lemma_owed_next(s2, c.frame, Resource::Frame, resource);
    lemma_owed_next(s3, c.packet, Resource::Packet, resource);
    lemma_owed_next(s4, c.context, Resource::Context, resource);
    assert(!s0.contains(resource));
}

/// Something that happens to a session: an operation is started, or the
/// driver reports.
pub enum SessionEvent {
    Init,
    Read(usize),
    Reply(NativeReply),
}

/// One if the handle is live, else nothing.
pub open spec fn live(handle: Handle) -> int {
    if handle == Handle::Live {
        1
    } else {
        0
    }
}

/// One if the handle has become live between two states, else nothing.
pub open spec fn gained(before: Handle, after: Handle) -> int {
    if before != Handle::Live && after == Handle::Live {
        1
    } else {
        0
    }
}

/// One if the handle has ceased to be live between two states, else nothing.
pub open spec fn lost(before: Handle, after: Handle) -> int {
    if before == Handle::Live && after != Handle::Live {
        1
    } else {
        0
    }
}

impl CaptureState {
    /// The state after an event.
    pub open spec fn apply(self, event: SessionEvent) -> CaptureState {
        match event {
            SessionEvent::Init => self.init().0,
            SessionEvent::Read(len) => self.read(len).0,
            SessionEvent::Reply(reply) => self.step(reply).0,
        }
    }

    /// The state after a sequence of events.
    pub open spec fn run(self, events: Seq<SessionEvent>) -> CaptureState
        decreases events.len(),
    {
        if events.len() == 0 {
            self
        } else {
            self.apply(events[0]).run(events.drop_first())
        }
    }

    /// The number of native objects held.
    pub open spec fn held(self) -> int {
        live(self.codec_context) + live(self.transcode_frame) + live(self.frame) + live(
            self.packet,
        ) + live(self.context)
    }

    /// The number of native objects that an event brings into the session.
    pub open spec fn acquired_by(self, event: SessionEvent) -> int {
        let after = self.apply(event);
        gained(self.codec_context, after.codec_context) + gained(
            self.transcode_frame,
            after.transcode_frame,
        ) + gained(self.frame, after.frame) + gained(self.packet, after.packet) + gained(
            self.context,
            after.context,
        )
    }

    /// The number of native objects that leave the session with an event:
    /// those handed to the driver for release, and the format context that a
    /// failed `OpenInput` has freed.
    pub open spec fn given_up_by(self, event: SessionEvent) -> int {
        let after = self.apply(event);
        lost(self.codec_context, after.codec_context) + lost(
            self.transcode_frame,
            after.transcode_frame,
        ) + lost(self.frame, after.frame) + lost(self.packet, after.packet) + lost(
            self.context,
            after.context,
        )
    }

    /// The number of native objects acquired over a sequence of events.
    pub open spec fn acquired(self, events: Seq<SessionEvent>) -> int
        decreases events.len(),
    {
        if events.len() == 0 {
            0
        } else {
            self.acquired_by(events[0]) + self.apply(events[0]).acquired(events.drop_first())
        }
    }

    /// The number of native objects given up over a sequence of events.
    pub open spec fn given_up(self, events: Seq<SessionEvent>) -> int
        decreases events.len(),
    {
        if events.len() == 0 {
            0
        } else {
            self.given_up_by(events[0]) + self.apply(events[0]).given_up(events.drop_first())
        }
    }
}

/// Every event leads from a valid state to a valid state.
proof fn lemma_event_keeps_valid(c: CaptureState, event: SessionEvent)
    requires
        c.wf(),
    ensures
        c.apply(event).wf(),
{
    match event {
        SessionEvent::Reply(reply) => {
            law_states_stay_valid(c, reply, 0);
        },
        SessionEvent::Read(len) => {
            law_states_stay_valid(c, NativeReply::Done, len);
        },
        SessionEvent::Init => {
            law_states_stay_valid(c, NativeReply::Done, 0);
        },
    }
}

/// Between any two states, what is held has changed by what was gained less
/// what was lost.
proof fn lemma_count(before: CaptureState, after: CaptureState)
    ensures
        after.held() == before.held() + gained(before.codec_context, after.codec_context) + gained(
            before.transcode_frame,
            after.transcode_frame,
        ) + gained(before.frame, after.frame) + gained(before.packet, after.packet) + gained(
            before.context,
            after.context,
        ) - lost(before.codec_context, after.codec_context) - lost(
            before.transcode_frame,
            after.transcode_frame,
        ) - lost(before.frame, after.frame) - lost(before.packet, after.packet) - lost(
            before.context,
            after.context,
        ),
{
}

/// What a session holds is what it has acquired less what it has given up.
proof fn lemma_balance(c: CaptureState, events: Seq<SessionEvent>)
    requires
        c.wf(),
    ensures
        c.run(events).wf(),
        c.run(events).held() == c.held() + c.acquired(events) - c.given_up(events),
    decreases events.len(),
{
    if events.len() > 0 {
        let next = c.apply(events[0]);
        lemma_event_keeps_valid(c, events[0]);
        lemma_count(c, next);
        lemma_balance(next, events.drop_first());
    }
}

/// The release order is as long as the number of objects held.
proof fn lemma_release_count(c: CaptureState)
    ensures
        c.release_order().len() == c.held(),
{
}

/// Over the whole life of a session, whatever is started and whatever the
/// driver reports, every native object acquired is released exactly once:
/// the objects acquired are as many as those given up on the way plus those
/// that the final shutdown hands out.
pub proof fn law_acquire_and_release_match(events: Seq<SessionEvent>)
    ensures
        CaptureState::created().acquired(events) == CaptureState::created().given_up(events)
            + CaptureState::created().run(events).release_order().len(),
        CaptureState::created().run(events).released(Phase::Failed).holds_nothing(),
{
    lemma_balance(CaptureState::created(), events);
    lemma_release_count(CaptureState::created().run(events));
}

} // verus!

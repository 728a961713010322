//! One broadcast cycle: whether to run it, what to send, and what to do with
//! each subscriber once its socket has answered.

use crate::outside::{encode_profile, encode_scores, profile_json, scores_json};
use crate::registry::{Delivery, Inbound, SocketReport};
use crate::structs::{Snapshot, TrackedData, WsKind};
use vstd::prelude::*;

verus! {

/// Seconds between two broadcast cycles.
pub const BROADCAST_INTERVAL_SECS: u64 = 1;

/// The serialized payloads of one cycle, one per feed.
#[derive(Clone, Debug)]
pub struct Payloads {
    pub profile: String,
    pub tops: String,
    pub firsts: String,
    pub recent: String,
}

/// The texts of the four payloads.
pub struct PayloadTexts {
    pub profile: Seq<char>,
    pub tops: Seq<char>,
    pub firsts: Seq<char>,
    pub recent: Seq<char>,
}

impl PayloadTexts {
    /// The text that goes to the subscribers of one feed.
    pub open spec fn text(self, kind: WsKind) -> Seq<char> {
        match kind {
            WsKind::User => self.profile,
            WsKind::Tops => self.tops,
            WsKind::Firsts => self.firsts,
            WsKind::Recent => self.recent,
        }
    }
}

impl View for Payloads {
    type V = PayloadTexts;

    open spec fn view(&self) -> PayloadTexts {
        PayloadTexts {
            profile: self.profile@,
            tops: self.tops@,
            firsts: self.firsts@,
            recent: self.recent@,
        }
    }
}

impl Payloads {
    /// The payload that goes to the subscribers of one feed.
    pub fn for_kind(&self, kind: WsKind) -> (text: &String)
        ensures
            text@ == self@.text(kind),
    {
        match kind {
            WsKind::User => &self.profile,
            WsKind::Tops => &self.tops,
            WsKind::Firsts => &self.firsts,
            WsKind::Recent => &self.recent,
        }
    }
}

/// What a broadcast cycle does.
#[derive(Clone, Debug)]
pub enum Cycle {
    /// No profile has been fetched yet: there is nothing to send.
    Skip,
    /// The payload of the named feed could not be serialized: the cycle ends
    /// without a write.
    Abort(WsKind),
    /// Send these payloads.
    Broadcast(Payloads),
}

/// What a broadcast cycle does, with the payloads as texts.
pub enum CycleView {
    Skip,
    Abort(WsKind),
    Broadcast(PayloadTexts),
}

impl View for Cycle {
    type V = CycleView;

    open spec fn view(&self) -> CycleView {
        match self {
            Cycle::Skip => CycleView::Skip,
            Cycle::Abort(kind) => CycleView::Abort(*kind),
            Cycle::Broadcast(payloads) => CycleView::Broadcast(payloads@),
        }
    }
}

/// The four payloads where every serialization succeeded, or else the first
/// feed, in the order profile, tops, firsts, recent, whose serialization
/// failed.
pub open spec fn assembled(
    profile: Option<Seq<char>>,
    tops: Option<Seq<char>>,
    firsts: Option<Seq<char>>,
    recent: Option<Seq<char>>,
) -> Result<PayloadTexts, WsKind> {
    if profile.is_none() {
        Err(WsKind::User)
    } else if tops.is_none() {
        Err(WsKind::Tops)
    } else if firsts.is_none() {
        Err(WsKind::Firsts)
    } else if recent.is_none() {
        Err(WsKind::Recent)
    } else {
        Ok(
            PayloadTexts {
                profile: profile.unwrap(),
                tops: tops.unwrap(),
                firsts: firsts.unwrap(),
                recent: recent.unwrap(),
            },
        )
    }
}

/// The text that a snapshot holds for a feed: the serialized slot of that feed,
/// absent where the slot cannot be serialized.
pub open spec fn payload_of(snapshot: Snapshot, kind: WsKind) -> Option<Seq<char>> {
    match kind {
        WsKind::User => profile_json(snapshot.profile),
        WsKind::Tops => scores_json(snapshot.tops),
        WsKind::Firsts => scores_json(snapshot.firsts),
        WsKind::Recent => scores_json(snapshot.recent),
    }
}

/// What the cycle does on a snapshot: skip while there is no profile;
/// otherwise serialize all four slots of this one snapshot, and broadcast
/// them unless one of them fails.
pub open spec fn cycle_of(snapshot: Snapshot) -> CycleView {
    if snapshot.profile.is_none() {
        CycleView::Skip
    } else {
        match assembled(
            profile_json(snapshot.profile),
            scores_json(snapshot.tops),
            scores_json(snapshot.firsts),
            scores_json(snapshot.recent),
        ) {
            Ok(texts) => CycleView::Broadcast(texts),
            Err(kind) => CycleView::Abort(kind),
        }
    }
}

/// Puts the four serialized slots together. An absent text is a serialization
/// that failed.
pub fn assemble(
    profile: Option<String>,
    tops: Option<String>,
    firsts: Option<String>,
    recent: Option<String>,
) -> (out: Result<Payloads, WsKind>)
    ensures
        match out {
            Ok(payloads) => assembled(
                text_of(profile),
                text_of(tops),
                text_of(firsts),
                text_of(recent),
            ) == Ok::<PayloadTexts, WsKind>(payloads@),
            Err(kind) => assembled(
                text_of(profile),
                text_of(tops),
                text_of(firsts),
                text_of(recent),
            ) == Err::<PayloadTexts, WsKind>(kind),
        },
{
    match (profile, tops, firsts, recent) {
        (None, _, _, _) => Err(WsKind::User),
        (Some(_), None, _, _) => Err(WsKind::Tops),
        (Some(_), Some(_), None, _) => Err(WsKind::Firsts),
        (Some(_), Some(_), Some(_), None) => Err(WsKind::Recent),
        (Some(profile), Some(tops), Some(firsts), Some(recent)) => Ok(
            Payloads { profile, tops, firsts, recent },
        ),
    }
}

/// The characters of a text that may be absent.
pub open spec fn text_of(text: Option<String>) -> Option<Seq<char>> {
    match text {
        Some(s) => Some(s@),
        None => None,
    }
}

/// Decides one broadcast cycle from the snapshot as it stands: all four
/// payloads are taken from this one value.
pub fn plan_cycle(data: &TrackedData) -> (cycle: Cycle)
    ensures
        cycle@ == cycle_of(data@),
{
    if data.user_extended.is_none() {
        return Cycle::Skip;
    }
    let profile = match encode_profile(&data.user_extended) {
        Ok(text) => Some(text),
        Err(_) => None,
    };
    let tops = match encode_scores(&data.user_scores) {
        Ok(text) => Some(text),
        Err(_) => None,
    };
    let firsts = match encode_scores(&data.user_firsts) {
        Ok(text) => Some(text),
        Err(_) => None,
    };
    let recent = match encode_scores(&data.user_recent) {
        Ok(text) => Some(text),
        Err(_) => None,
    };
    match assemble(profile, tops, firsts, recent) {
        Ok(payloads) => Cycle::Broadcast(payloads),
        Err(kind) => Cycle::Abort(kind),
    }
}

/// What to do with a subscriber after the look at its inbound side.
#[derive(Clone, Copy, PartialEq, Eq, Debug, Structural)]
pub enum Step {
    /// Write the payload of its feed.
    Deliver,
    /// Drop it without a write: it closed, or the receive failed.
    Discard,
}

/// What to do with a subscriber after the write.
#[derive(Clone, Copy, PartialEq, Eq, Debug, Structural)]
pub enum Verdict {
    /// The write went through: it stays.
    Keep,
    /// The write failed: tell it to close, then drop it.
    CloseAndDiscard,
}

/// The step that follows the look at the inbound side.
pub open spec fn step_after(inbound: Inbound) -> Step {
    match inbound {
        Inbound::Close => Step::Discard,
        Inbound::Failed => Step::Discard,
        _ => Step::Deliver,
    }
}

/// Decides whether a subscriber gets this cycle's payload. A subscriber that
/// sent a close frame, or whose receive failed, is dropped before any write.
pub fn after_liveness(inbound: Inbound) -> (step: Step)
    ensures
        step == step_after(inbound),
{
    match inbound {
        Inbound::Close => Step::Discard,
        Inbound::Failed => Step::Discard,
        _ => Step::Deliver,
    }
}

/// Decides what becomes of a subscriber once the write has ended.
pub fn after_send(delivery: Delivery) -> (verdict: Verdict)
    ensures
        verdict == if delivery == Delivery::Sent {
            Verdict::Keep
        } else {
            Verdict::CloseAndDiscard
        },
{
    match delivery {
        Delivery::Sent => Verdict::Keep,
        Delivery::Failed => Verdict::CloseAndDiscard,
    }
}

/// The report of a subscriber that got no write.
pub fn unsent(inbound: Inbound) -> (report: SocketReport)
    ensures
        report == (SocketReport { inbound, delivery: None }),
        report.alive() == (step_after(inbound) == Step::Deliver),
{
    SocketReport { inbound, delivery: None }
}

/// The report of a subscriber whose write ended with `delivery`.
pub fn sent(inbound: Inbound, delivery: Delivery) -> (report: SocketReport)
    ensures
        report == (SocketReport { inbound, delivery: Some(delivery) }),
        report.alive() == (step_after(inbound) == Step::Deliver && delivery == Delivery::Sent),
{
    SocketReport { inbound, delivery: Some(delivery) }
}

/// While no profile has been fetched, every cycle is skipped, whatever else
/// the snapshot holds.
pub proof fn law_no_profile_skips_the_cycle(snapshot: Snapshot)
    requires
        snapshot.profile.is_none(),
    ensures
        cycle_of(snapshot) == CycleView::Skip,
{
}

/// Within one cycle every payload is the text of the one snapshot that the
/// cycle read: whatever the feed, what goes out is the serialized slot of that
/// snapshot, and of no other.
pub proof fn law_payloads_of_one_snapshot(snapshot: Snapshot, kind: WsKind)
    ensures
        cycle_of(snapshot) matches CycleView::Broadcast(texts) ==> payload_of(snapshot, kind)
            == Some(texts.text(kind)),
        cycle_of(snapshot) is Broadcast <==> snapshot.profile.is_some() && forall|k: WsKind|
            payload_of(snapshot, k).is_some(),
{
    if snapshot.profile.is_some() {
        if cycle_of(snapshot) is Broadcast {
            assert forall|k: WsKind| payload_of(snapshot, k).is_some() by {
                match k {
                    WsKind::User => {},
                    WsKind::Tops => {},
                    WsKind::Firsts => {},
                    WsKind::Recent => {},
                }
            }
        }
        if forall|k: WsKind| payload_of(snapshot, k).is_some() {
            assert(payload_of(snapshot, WsKind::User).is_some());
            assert(payload_of(snapshot, WsKind::Tops).is_some());
            assert(payload_of(snapshot, WsKind::Firsts).is_some());
            assert(payload_of(snapshot, WsKind::Recent).is_some());
        }
    }
}

/// In a cycle that sends, a subscriber whose socket neither closed nor failed
/// is written the payload of its feed, taken from the snapshot that the cycle
/// read, and its report says that it is alive.
pub proof fn law_healthy_subscriber_is_served(
    snapshot: Snapshot,
    texts: PayloadTexts,
    kind: WsKind,
    inbound: Inbound,
)
    requires
        cycle_of(snapshot) == CycleView::Broadcast(texts),
        inbound != Inbound::Close,
        inbound != Inbound::Failed,
    ensures
        step_after(inbound) == Step::Deliver,
        payload_of(snapshot, kind) == Some(texts.text(kind)),
        (SocketReport { inbound, delivery: Some(Delivery::Sent) }).alive(),
{
    law_payloads_of_one_snapshot(snapshot, kind);
}

/// A subscriber is alive after a cycle exactly if it was written to and the
/// write went through.
pub proof fn law_alive_means_delivered(report: SocketReport)
    requires
        report.delivery.is_some() == (step_after(report.inbound) == Step::Deliver),
    ensures
        report.alive() == (report.delivery == Some(Delivery::Sent)),
{
    match report.delivery {
        Some(Delivery::Sent) => {},
        Some(Delivery::Failed) => {},
        None => {},
    }
}

} // verus!

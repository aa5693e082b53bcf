//! The priority chain: who is shown an event, in what order, and who may
//! claim it.
//!
//! The consumers live with the host. A pass over the chain names the consumer
//! to show the event to next, takes its reply, and stops at the first claim.

use crate::event::{
    key_release,
    keyboard,
    structural,
    ui_claimable,
    window_scoped,
    InputEvent,
};
use vstd::prelude::*;

verus! {

/// A candidate consumer of an event.
#[derive(Clone, Copy, Debug, PartialEq, Eq, Structural)]
pub enum Consumer {
    /// The modal surface that captures a key combination.
    Popup,
    /// The immediate-mode UI.
    UiLayer,
    /// The application behind the UI.
    Application,
}

/// One place in the chain: the consumer to show the event to, and whether a
/// claim of its counts.
#[derive(Clone, Copy, Debug, PartialEq, Eq, Structural)]
pub struct Offer {
    pub consumer: Consumer,
    pub may_claim: bool,
}

/// What a consumer said of an event that it was shown.
#[derive(Clone, Copy, Debug, PartialEq, Eq, Structural)]
pub struct Reply {
    /// It took the event for itself.
    pub claimed: bool,
    /// It has to be painted anew.
    pub repaint: bool,
}

/// What a pass over the chain came to.
#[derive(Clone, Copy, Debug, PartialEq, Eq, Structural)]
pub struct ConsumptionResult {
    /// A consumer claimed the event.
    pub claimed: bool,
    /// A frame is wanted outside the regular cadence.
    pub needs_repaint: bool,
}

/// The popup's place: first, for every event of the window, while it is open.
pub open spec fn popup_part(event: InputEvent, popup_open: bool) -> Seq<Offer> {
    if popup_open && window_scoped(event) {
        seq![Offer { consumer: Consumer::Popup, may_claim: true }]
    } else {
        Seq::empty()
    }
}

/// The places after the popup's. An event that the surface or the theme
/// absorbs goes no further, and a redraw request is nobody's to consume. A
/// message of the application goes to the application alone. Everything else
/// is shown to the UI layer and then to the application; a key release and a
/// change of modifiers are shown to the UI layer too, so that it knows which
/// keys are held, but it cannot keep them from the application.
pub open spec fn rest_part(event: InputEvent) -> Seq<Offer> {
    if structural(event) || event is RedrawRequested {
        Seq::empty()
    } else if event is ApplicationEvent {
        seq![Offer { consumer: Consumer::Application, may_claim: true }]
    } else {
        seq![
            Offer { consumer: Consumer::UiLayer, may_claim: ui_claimable(event) },
            Offer { consumer: Consumer::Application, may_claim: true },
        ]
    }
}

/// The chain for `event`, in the order in which the consumers are asked.
pub open spec fn chain(event: InputEvent, popup_open: bool) -> Seq<Offer> {
    popup_part(event, popup_open) + rest_part(event)
}

/// Mathematical state of a pass.
pub struct PassView {
    pub event: InputEvent,
    pub popup_open: bool,
    /// How many places of the chain have replied.
    pub asked: nat,
    /// The consumer that claimed the event.
    pub claimed_by: Option<Consumer>,
    /// A consumer that replied has to be painted anew.
    pub repaint: bool,
}

/// A pass that has asked nobody yet.
pub open spec fn opened(event: InputEvent, popup_open: bool) -> PassView {
    PassView { event, popup_open, asked: 0, claimed_by: None, repaint: false }
}

/// The place whose turn it is, if the pass goes on: none once the event is
/// claimed or the chain is at its end.
pub open spec fn pending(pass: PassView) -> Option<Offer> {
    if pass.claimed_by is None && pass.asked < chain(pass.event, pass.popup_open).len() {
        Some(chain(pass.event, pass.popup_open)[pass.asked as int])
    } else {
        None
    }
}

/// The pass after the consumer whose turn it was replied. A reply that nobody
/// was asked for changes nothing.
pub open spec fn answered(pass: PassView, reply: Reply) -> PassView {
    match pending(pass) {
        None => pass,
        Some(offer) => PassView {
            asked: pass.asked + 1,
            claimed_by: if reply.claimed && offer.may_claim {
                Some(offer.consumer)
            } else {
                None
            },
            repaint: pass.repaint || reply.repaint,
            ..pass
        },
    }
}

/// The pass after the replies in `replies`, one after the other.
pub open spec fn answered_all(pass: PassView, replies: Seq<Reply>) -> PassView
    decreases replies.len(),
{
    if replies.len() == 0 {
        pass
    } else {
        answered(answered_all(pass, replies.drop_last()), replies.last())
    }
}

/// What the pass has come to so far. Keyboard traffic and events that change
/// the surface or the style always ask for a repaint.
pub open spec fn outcome(pass: PassView) -> ConsumptionResult {
    ConsumptionResult {
        claimed: pass.claimed_by is Some,
        needs_repaint: pass.repaint || keyboard(pass.event) || structural(pass.event),
    }
}

/// One pass of one event over the chain.
pub struct DispatchPass {
    event: InputEvent,
    popup_open: bool,
    asked: u8,
    claimed_by: Option<Consumer>,
    repaint: bool,
}

impl View for DispatchPass {
    type V = PassView;

    closed spec fn view(&self) -> PassView {
        PassView {
            event: self.event,
            popup_open: self.popup_open,
            asked: self.asked as nat,
            claimed_by: self.claimed_by,
            repaint: self.repaint,
        }
    }
}

/// The place at `index` of the chain for `event`.
fn offer_at(event: &InputEvent, popup_open: bool, index: u8) -> (offer: Option<Offer>)
    ensures
        offer == (if index < chain(*event, popup_open).len() {
            Some(chain(*event, popup_open)[index as int])
        } else {
            None
        }),
{
    let head: u8 = if popup_open && event.is_window_scoped() {
        1
    } else {
        0
    };
    assert(popup_part(*event, popup_open).len() == head);
    if index < head {
        return Some(Offer { consumer: Consumer::Popup, may_claim: true });
    }
    let place: u8 = index - head;
    assert(chain(*event, popup_open).len() == head + rest_part(*event).len());
    assert(place < rest_part(*event).len() ==> chain(*event, popup_open)[index as int]
        == rest_part(*event)[place as int]);
    match event {
        InputEvent::Resized { .. } => None,
        InputEvent::ScaleFactorChanged { .. } => None,
        InputEvent::ThemeChanged { .. } => None,
        InputEvent::RedrawRequested => None,
        InputEvent::ApplicationEvent { .. } => {
            if place == 0 {
                Some(Offer { consumer: Consumer::Application, may_claim: true })
            } else {
                None
            }
        },
        _ => {
            if place == 0 {
                Some(Offer { consumer: Consumer::UiLayer, may_claim: event.is_ui_claimable() })
            } else if place == 1 {
                Some(Offer { consumer: Consumer::Application, may_claim: true })
            } else {
                None
            }
        },
    }
}

impl DispatchPass {
    /// Starts a pass for `event`. `popup_open` tells whether the modal popup is
    /// open at this moment.
    pub fn begin(event: InputEvent, popup_open: bool) -> (pass: DispatchPass)
        ensures
            pass@ == opened(event, popup_open),
    {
        DispatchPass { event, popup_open, asked: 0, claimed_by: None, repaint: false }
    }

    /// The consumer to show the event to now, or `None` when the pass is over.
    pub fn pending(&self) -> (offer: Option<Offer>)
        ensures
            offer == pending(self@),
    {
        match self.claimed_by {
            Some(_) => None,
            None => offer_at(&self.event, self.popup_open, self.asked),
        }
    }

    /// Takes the reply of the consumer whose turn it was.
    pub fn answer(&mut self, reply: Reply)
        ensures
            final(self)@ == answered(old(self)@, reply),
    {
        match self.pending() {
            None => {},
            Some(offer) => {
                assert(chain(self.event, self.popup_open).len() <= 3);
                self.asked = self.asked + 1;
                if reply.claimed && offer.may_claim {
                    self.claimed_by = Some(offer.consumer);
                }
                if reply.repaint {
                    self.repaint = true;
                }
            },
        }
    }

    /// What the pass has come to so far.
    pub fn result(&self) -> (result: ConsumptionResult)
        ensures
            result == outcome(self@),
    {
        let claimed = match self.claimed_by {
            Some(_) => true,
            None => false,
        };
        ConsumptionResult {
            claimed,
            needs_repaint: self.repaint || self.event.is_keyboard() || self.event.is_structural(),
        }
    }

    /// The consumer that claimed the event, if one did.
    pub fn claimed_by(&self) -> (consumer: Option<Consumer>)
        ensures
            consumer == self@.claimed_by,
    {
        self.claimed_by
    }

    /// The event that the pass is about.
    pub fn event(&self) -> (event: InputEvent)
        ensures
            event == self@.event,
    {
        self.event
    }
}

/// Replies change neither the event of a pass nor what it knows of the popup,
/// and a pass never asks more consumers than the chain holds.
pub proof fn lemma_pass_keeps_event(pass: PassView, replies: Seq<Reply>)
    ensures
        answered_all(pass, replies).event == pass.event,
        answered_all(pass, replies).popup_open == pass.popup_open,
        pass.asked <= chain(pass.event, pass.popup_open).len() ==> answered_all(
            pass,
            replies,
        ).asked <= chain(pass.event, pass.popup_open).len(),
    decreases replies.len(),
{
    if replies.len() > 0 {
        lemma_pass_keeps_event(pass, replies.drop_last());
    }
}

/// Whoever claimed the event stands in the chain, at the place asked last, and
/// is allowed to claim: a pass stops at the first claim, so one consumer at
/// most claims an event.
pub proof fn lemma_claimant_in_chain(event: InputEvent, popup_open: bool, replies: Seq<Reply>)
    ensures
        ({
            let pass = answered_all(opened(event, popup_open), replies);
            pass.claimed_by matches Some(consumer) ==> {
                &&& 0 < pass.asked <= chain(event, popup_open).len()
                &&& chain(event, popup_open)[pass.asked - 1] == (Offer { consumer, may_claim: true })
                &&& pending(pass) is None
            }
        }),
    decreases replies.len(),
{
    if replies.len() > 0 {
        lemma_claimant_in_chain(event, popup_open, replies.drop_last());
        lemma_pass_keeps_event(opened(event, popup_open), replies.drop_last());
    }
}

/// The UI layer claims only what it may claim: whatever the consumers reply,
/// an event that ends up claimed by the UI layer is one that it is allowed to
/// claim.
pub proof fn lemma_ui_claims_only_claimable(
    event: InputEvent,
    popup_open: bool,
    replies: Seq<Reply>,
)
    ensures
        answered_all(opened(event, popup_open), replies).claimed_by == Some(Consumer::UiLayer)
            ==> ui_claimable(event),
{
    lemma_claimant_in_chain(event, popup_open, replies);
}

/// A key release is never claimed by the UI layer, whether the popup is open or
/// not and whatever the consumers reply. A pass starts from the event and from
/// whether the popup is open now, and from nothing else: what happened to the
/// key press, and whether the popup was open then, cannot change this.
pub proof fn lemma_release_never_claimed_by_ui(
    event: InputEvent,
    popup_open: bool,
    replies: Seq<Reply>,
)
    requires
        key_release(event),
    ensures
        answered_all(opened(event, popup_open), replies).claimed_by != Some(Consumer::UiLayer),
{
    lemma_ui_claims_only_claimable(event, popup_open, replies);
}

/// An event that the surface or the theme absorbs is shown to the popup at
/// most: neither the UI layer nor the application can claim it.
pub proof fn lemma_structural_stops_at_popup(
    event: InputEvent,
    popup_open: bool,
    replies: Seq<Reply>,
)
    requires
        structural(event),
    ensures
        forall|i: int|
            0 <= i < chain(event, popup_open).len() ==> (#[trigger] chain(
                event,
                popup_open,
            )[i]).consumer == Consumer::Popup,
        answered_all(opened(event, popup_open), replies).claimed_by != Some(Consumer::UiLayer),
        answered_all(opened(event, popup_open), replies).claimed_by != Some(Consumer::Application),
        outcome(answered_all(opened(event, popup_open), replies)).needs_repaint,
{
    lemma_claimant_in_chain(event, popup_open, replies);
    lemma_pass_keeps_event(opened(event, popup_open), replies);
}

/// While nobody claims, the consumers are asked in the order of the chain: after
/// `replies.len()` replies without a claim that counts, the place of that
/// number has its turn.
pub proof fn lemma_asked_in_order(event: InputEvent, popup_open: bool, replies: Seq<Reply>)
    requires
        replies.len() <= chain(event, popup_open).len(),
        forall|i: int|
            0 <= i < replies.len() ==> !((#[trigger] replies[i]).claimed && chain(
                event,
                popup_open,
            )[i].may_claim),
    ensures
        ({
            let pass = answered_all(opened(event, popup_open), replies);
            &&& pass.asked == replies.len()
            &&& pass.claimed_by is None
            &&& replies.len() < chain(event, popup_open).len() ==> pending(pass) == Some(
                chain(event, popup_open)[replies.len() as int],
            )
            &&& replies.len() == chain(event, popup_open).len() ==> pending(pass) is None
        }),
    decreases replies.len(),
{
    if replies.len() > 0 {
        let front = replies.drop_last();
        assert forall|i: int| 0 <= i < front.len() implies !((#[trigger] front[i]).claimed && chain(
            event,
            popup_open,
        )[i].may_claim) by {
            assert(front[i] == replies[i]);
        }
        lemma_asked_in_order(event, popup_open, front);
        lemma_pass_keeps_event(opened(event, popup_open), front);
    }
}

/// A key release reaches the application unless the popup claimed it, and so
/// does a change of modifiers: the application stands last in the chain, and
/// nothing between the popup and the application can stop the event.
pub proof fn lemma_release_reaches_application(event: InputEvent, popup_open: bool)
    requires
        key_release(event) || event is ModifiersChanged,
    ensures
        chain(event, popup_open).len() > 0,
        chain(event, popup_open).last() == (Offer {
            consumer: Consumer::Application,
            may_claim: true,
        }),
        forall|i: int|
            0 <= i < chain(event, popup_open).len() - 1 && (#[trigger] chain(
                event,
                popup_open,
            )[i]).may_claim ==> chain(event, popup_open)[i].consumer == Consumer::Popup,
{
}

} // verus!

//! The render notifier's decisions.
//!
//! The renderer calls back, possibly from its own internal thread, when a new
//! frame is ready or a redraw is otherwise needed. All the callback does is
//! post payload-free wake signals into the platform event queue so the
//! blocked loop runs another iteration; these functions decide which signals
//! to post, and the embedder performs the posting. Coalesced or duplicate
//! deliveries are acceptable to the loop, but these decisions themselves are
//! exact: one notification asks for exactly one signal.

use vstd::prelude::*;

use crate::scene::DocumentId;

verus! {

/// A wake signal posted into the platform event queue. It carries no
/// payload: it only means "run at least one more loop iteration soon".
#[derive(Clone, Copy, Debug, PartialEq, Eq, Structural)]
pub struct WakeSignal;

/// The signals a direct wake-up request posts: exactly one, whatever the
/// composite-needed flag says.
pub open spec fn wake_up_signals(composite_needed: bool) -> Seq<WakeSignal> {
    seq![WakeSignal]
}

/// The signals a new-frame-ready notification posts: the same as a direct
/// wake-up; the document identifier and the scrolled flag are ignored.
pub open spec fn frame_ready_signals(
    document: DocumentId,
    scrolled: bool,
    composite_needed: bool,
) -> Seq<WakeSignal> {
    wake_up_signals(composite_needed)
}

/// Decides what a wake-up request posts into the event queue.
pub fn wake_up(composite_needed: bool) -> (signals: Vec<WakeSignal>)
    ensures
        signals@ == wake_up_signals(composite_needed),
{
    let mut signals: Vec<WakeSignal> = Vec::new();
    signals.push(WakeSignal);
    proof {
        assert(signals@ =~= wake_up_signals(composite_needed));
    }
    signals
}

/// Decides what a new-frame-ready notification posts into the event queue:
/// it forwards to `wake_up`, ignoring the document and the scrolled flag.
pub fn new_frame_ready(document: DocumentId, scrolled: bool, composite_needed: bool) -> (signals:
    Vec<WakeSignal>)
    ensures
        signals@ == frame_ready_signals(document, scrolled, composite_needed),
{
    wake_up(composite_needed)
}

/// Law: a new-frame-ready notification, whatever its document identifier and
/// flags, posts exactly one wake signal, and exactly what a direct wake-up
/// request posts.
pub proof fn lemma_frame_ready_wakes_once(
    document: DocumentId,
    scrolled: bool,
    composite_needed: bool,
)
    ensures
        frame_ready_signals(document, scrolled, composite_needed) == wake_up_signals(
            composite_needed,
        ),
        frame_ready_signals(document, scrolled, composite_needed).len() == 1,
{
}

} // verus!

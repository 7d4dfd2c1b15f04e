use trirect::notify::{new_frame_ready, wake_up, WakeSignal};
use trirect::scene::DocumentId;

#[test]
fn frame_ready_posts_exactly_one_wake() {
    let documents = [
        DocumentId { namespace: 0, id: 0 },
        DocumentId { namespace: 1, id: 7 },
    ];
    for document in documents {
        for scrolled in [false, true] {
            for composite_needed in [false, true] {
                let signals = new_frame_ready(document, scrolled, composite_needed);
                assert_eq!(signals, vec![WakeSignal]);
            }
        }
    }
}

#[test]
fn frame_ready_matches_direct_wake_up() {
    let document = DocumentId { namespace: 3, id: 4 };
    assert_eq!(new_frame_ready(document, true, false), wake_up(false));
    assert_eq!(new_frame_ready(document, false, true), wake_up(true));
}

#[test]
fn wake_up_posts_one_signal_either_way() {
    assert_eq!(wake_up(false).len(), 1);
    assert_eq!(wake_up(true).len(), 1);
}

use steady_ink::input::palm_session::{PalmSession, TouchMessageKind, TouchReport};
use steady_ink::input::windows_pointer::PalmErasePhase;

fn candidate_session(ids: &[u32]) -> PalmSession {
    let mut session = PalmSession::new();
    for &id in ids {
        session.record_contact(id);
    }
    for &id in ids {
        let report = session.handle_touch_message(id, TouchMessageKind::Update, false, &ids.to_vec(), false);
        assert_eq!(report, TouchReport::PalmCandidate);
    }
    session
}

#[test]
fn leaving_candidate_cancels_without_buffered_stroke() {
    let mut session = candidate_session(&[7]);
    let report = session.handle_touch_message(7, TouchMessageKind::Leave, false, &vec![], false);
    assert_eq!(report, TouchReport::CandidateCancelled { session_ended: true });
    assert!(session.is_idle());
}

#[test]
fn leaving_one_candidate_preserves_the_remaining_session() {
    let mut session = candidate_session(&[7, 8]);
    let first = session.handle_touch_message(7, TouchMessageKind::Leave, false, &vec![], false);
    let second = session.handle_touch_message(8, TouchMessageKind::Leave, false, &vec![], false);
    assert_eq!(first, TouchReport::CandidateCancelled { session_ended: false });
    assert_eq!(second, TouchReport::CandidateCancelled { session_ended: true });
    assert!(session.is_idle());
}

#[test]
fn leaving_last_palm_ends_erase_session() {
    let mut session = candidate_session(&[7]);
    let begin = session.handle_touch_message(7, TouchMessageKind::Update, false, &vec![7], true);
    assert_eq!(begin, TouchReport::PalmErase(PalmErasePhase::Begin));
    assert!(session.is_palm(7) && session.palm_erasing());
    let report = session.handle_touch_message(7, TouchMessageKind::Leave, false, &vec![], false);
    assert_eq!(report, TouchReport::PalmErase(PalmErasePhase::End));
    assert!(session.is_idle());
}

#[test]
fn palm_erase_moves_and_hands_off_between_contacts() {
    let mut session = candidate_session(&[3, 4]);
    assert_eq!(
        session.handle_touch_message(3, TouchMessageKind::Update, false, &vec![], true),
        TouchReport::PalmErase(PalmErasePhase::Begin)
    );
    assert_eq!(
        session.handle_touch_message(4, TouchMessageKind::Update, false, &vec![], true),
        TouchReport::PalmErase(PalmErasePhase::Move)
    );
    assert_eq!(
        session.handle_touch_message(3, TouchMessageKind::Release, false, &vec![], false),
        TouchReport::PalmErase(PalmErasePhase::Move)
    );
    assert_eq!(
        session.handle_touch_message(4, TouchMessageKind::Release, false, &vec![], false),
        TouchReport::PalmErase(PalmErasePhase::End)
    );
    assert!(!session.palm_erasing());
}

#[test]
fn ordinary_touches_pass_and_pen_activity_rests_the_hand() {
    let mut session = PalmSession::new();
    session.record_contact(1);
    assert_eq!(session.handle_touch_message(1, TouchMessageKind::Update, false, &vec![], false), TouchReport::PassThrough);
    assert_eq!(
        session.handle_touch_message(1, TouchMessageKind::Update, true, &vec![1], true),
        TouchReport::PalmSupport { still_held: true }
    );
    assert_eq!(
        session.handle_touch_message(1, TouchMessageKind::Release, true, &vec![], false),
        TouchReport::PalmSupport { still_held: false }
    );
    let mut rejected = candidate_session(&[9]);
    assert_eq!(
        rejected.handle_touch_message(9, TouchMessageKind::Release, false, &vec![], false),
        TouchReport::CandidateRejected { session_ended: true }
    );
    assert!(!rejected.is_candidate(9));
}

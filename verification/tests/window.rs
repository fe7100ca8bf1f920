use kiss3d_textures::event::ime::ImeEvent;
use kiss3d_textures::window::ios::{frame_has_passed, IosLoop, LoopAction};

#[test]
fn nothing_is_polled_before_the_app_is_resumed() {
    let mut lp = IosLoop::new();
    assert_eq!(lp.about_to_wait(), LoopAction::Wait);
    assert_eq!(lp.about_to_wait(), LoopAction::Wait);
    assert_eq!(lp.frame, 0);
    assert_eq!(lp.resumed(), LoopAction::PollApp);
    assert!(lp.started);
    assert_eq!(lp.frame, 0);
}

#[test]
fn every_turn_after_resume_advances_the_frame_and_polls() {
    let mut lp = IosLoop::new();
    lp.resumed();
    assert!(!lp.poll_finished(false));
    let yielded_at = lp.frame;
    assert!(!frame_has_passed(yielded_at, lp.frame));
    assert_eq!(lp.about_to_wait(), LoopAction::PollApp);
    assert_eq!(lp.frame, yielded_at + 1);
    assert!(frame_has_passed(yielded_at, lp.frame));
}

#[test]
fn a_completed_future_asks_to_exit_and_is_never_polled_again() {
    let mut lp = IosLoop::new();
    lp.resumed();
    assert!(lp.poll_finished(true));
    assert!(!lp.running);
    assert_eq!(lp.about_to_wait(), LoopAction::Wait);
    assert_eq!(lp.resumed(), LoopAction::Wait);
    assert_eq!(lp.frame, 1);
}

#[test]
fn composed_text_events_compare_by_content() {
    let preedit = ImeEvent::Preedit { text: "かな".to_string(), cursor: Some((0, 3)) };
    assert_eq!(preedit.clone(), preedit);
    assert_ne!(ImeEvent::Commit("a".to_string()), ImeEvent::Commit("b".to_string()));
    assert_ne!(ImeEvent::Enabled, ImeEvent::Disabled);
}

#[test]
fn a_whole_run_polls_once_per_callback_from_resume_to_completion() {
    let mut lp = IosLoop::new();
    let mut polls = 0;
    for _ in 0..3 {
        if lp.about_to_wait() == LoopAction::PollApp {
            polls += 1;
        }
    }
    assert_eq!((polls, lp.frame), (0, 0));
    if lp.resumed() == LoopAction::PollApp {
        polls += 1;
        lp.poll_finished(false);
    }
    for turn in 0..5 {
        if lp.about_to_wait() == LoopAction::PollApp {
            polls += 1;
            lp.poll_finished(turn == 4);
        }
    }
    assert_eq!((polls, lp.frame), (6, 5));
    for _ in 0..3 {
        assert_eq!(lp.about_to_wait(), LoopAction::Wait);
    }
    assert_eq!(lp.resumed(), LoopAction::Wait);
}

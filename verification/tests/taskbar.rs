use buttery_taskbar::geometry::ScreenRect;
use buttery_taskbar::taskbar::{
    appbar_state, autohide_state_set, hook_change, key_state_is_down, should_show_taskbar_for_foreground,
    is_shell_surface_class, HookChange, HookPlan, TaskbarFlags,
};
use buttery_taskbar::worker::{PassOutcome, RetryLoop, Signal, WorkerAction, WorkerEvent, WorkerState};

fn monitor() -> ScreenRect {
    ScreenRect { left: 0, top: 0, right: 1920, bottom: 1080 }
}

fn hidden() -> TaskbarFlags {
    let mut f = TaskbarFlags::new();
    f.should_show_due_to_focus = false;
    f
}

#[test]
fn taskbar_wanted_conditions() {
    let f = hidden();
    assert!(!f.should_show_taskbar(1000));
    let mut g = f;
    g.menu_active = true;
    assert!(g.should_show_taskbar(1000));
    let mut g = f;
    g.is_win_key_down = true;
    assert!(g.should_show_taskbar(1000));
    let mut g = f;
    g.should_stay_visible_before = 1001;
    assert!(g.should_show_taskbar(1000));
    assert!(!g.should_show_taskbar(1001));
    assert!(TaskbarFlags::new().should_show_taskbar(0));
}

#[test]
fn win_key_lingers_after_release() {
    let mut f = hidden();
    assert!(f.handle_key_down(0x5B, true));
    assert!(!f.handle_key_down(0x5C, true));
    assert!(f.is_win_key_down);
    assert!(f.handle_key_up(0x5B, true, false, 5000));
    assert!(!f.is_win_key_down);
    assert_eq!(f.should_stay_visible_before, 5400);
    assert!(f.should_show_taskbar(5399));
    assert!(!f.should_show_taskbar(5400));
}

#[test]
fn keys_ignored_when_disabled_or_not_win() {
    let mut f = hidden();
    assert!(!f.handle_key_down(0x5B, false));
    assert!(!f.handle_key_down('A' as u32, true));
    assert_eq!(f, hidden());
    assert!(!f.handle_key_up(0x5B, false, false, 10));
    assert!(!f.handle_key_up('A' as u32, true, false, 10));
    assert_eq!(f, hidden());
    assert!(f.handle_key_up(0x5C, true, true, 10));
    assert!(f.is_win_key_down);
}

#[test]
fn key_state_bits() {
    assert!(key_state_is_down(0x10));
    assert!(key_state_is_down(0x80));
    assert!(key_state_is_down(-128));
    assert!(!key_state_is_down(0x01));
    assert!(!key_state_is_down(0x100));
    assert!(!key_state_is_down(-32768));
}

#[test]
fn edge_scroll_requests_start() {
    let mut f = hidden();
    assert!(f.handle_mouse_scroll(10, 1078, monitor(), true));
    assert!(f.win_key_press_requested);
    assert!(f.take_win_key_press_request());
    assert!(!f.take_win_key_press_request());
    assert!(!f.handle_mouse_scroll(10, 1077, monitor(), true));
    assert!(!f.handle_mouse_scroll(10, 1080, monitor(), true));
    assert!(!f.handle_mouse_scroll(1920, 1079, monitor(), true));
    assert!(!f.handle_mouse_scroll(10, 1079, monitor(), false));
    assert_eq!(f, hidden());
}

#[test]
fn edge_touch_shows_taskbar() {
    let mut f = hidden();
    assert!(f.handle_mouse_move(5, 1079, monitor(), true, 0));
    assert!(f.should_show_due_to_focus);
    // Already wanted: nothing new.
    assert!(!f.handle_mouse_move(5, 1079, monitor(), true, 0));
    let mut g = hidden();
    assert!(!g.handle_mouse_move(5, 1000, monitor(), true, 0));
    assert!(!g.handle_mouse_move(5, 1079, monitor(), false, 0));
    assert_eq!(g, hidden());
}

#[test]
fn foreground_decides_unless_menu_or_disabled() {
    let mut f = hidden();
    f.refresh_for_foreground(true, false);
    assert!(!f.should_show_due_to_focus);
    f.refresh_for_foreground(true, true);
    assert!(f.should_show_due_to_focus);
    f.refresh_for_foreground(false, false);
    assert!(f.should_show_due_to_focus);
    f.set_menu_active(true);
    f.refresh_for_foreground(true, false);
    assert!(f.should_show_due_to_focus);
}

#[test]
fn shell_surfaces() {
    for name in [
        "Windows.UI.Core.CoreWindow",
        "Shell_TrayWnd",
        "Shell_SecondaryTrayWnd",
        "TopLevelWindowForOverflowXamlIsland",
        "XamlExplorerHostIslandWindow",
        "NotifyIconOverflowWindow",
    ] {
        assert!(is_shell_surface_class(name), "{name}");
        assert!(should_show_taskbar_for_foreground(Some(name)));
    }
    assert!(!is_shell_surface_class("Notepad"));
    assert!(!is_shell_surface_class("shell_traywnd"));
    assert!(!should_show_taskbar_for_foreground(None));
}

#[test]
fn hooks_follow_settings() {
    let f = hidden();
    assert_eq!(f.hook_plan(true, true), HookPlan { keyboard: true, mouse: true });
    assert_eq!(f.hook_plan(false, true), HookPlan { keyboard: false, mouse: true });
    let mut g = f;
    g.set_menu_active(true);
    assert_eq!(g.hook_plan(true, true), HookPlan { keyboard: false, mouse: false });
    assert_eq!(hook_change(false, true), HookChange::Install);
    assert_eq!(hook_change(true, false), HookChange::Remove);
    assert_eq!(hook_change(true, true), HookChange::Keep);
    assert_eq!(hook_change(false, false), HookChange::Keep);
}

#[test]
fn quit_happens_once() {
    let mut f = hidden();
    f.set_menu_active(true);
    assert!(f.begin_quit());
    assert!(f.is_finalizing && !f.menu_active);
    assert_eq!(f.hook_plan(true, true), HookPlan { keyboard: false, mouse: false });
    let before = f;
    assert!(!f.begin_quit());
    assert_eq!(f, before);
}

#[test]
fn appbar_autohide_table() {
    assert_eq!(appbar_state(true, false, false), 1);
    assert_eq!(appbar_state(true, true, false), 0);
    assert_eq!(appbar_state(false, false, true), 1);
    assert_eq!(appbar_state(false, false, false), 0);
    assert_eq!(appbar_state(true, true, true), 1);
    assert!(autohide_state_set(1));
    assert!(autohide_state_set(3));
    assert!(!autohide_state_set(2));
}

#[test]
fn retry_loop_counts_attempts() {
    let mut r = RetryLoop::new();
    assert!(r.has_attempts_left());
    r.start_pass();
    assert_eq!(r.finish_pass(10, 0, false, false), PassOutcome::Sleep(50));
    assert_eq!(r.attempts, 9);
    r.start_pass();
    assert_eq!(r.finish_pass(10, 0, true, false), PassOutcome::Sleep(10));
    assert_eq!(r.attempts, 10);
    r.start_pass();
    assert_eq!(r.finish_pass(10, 20, false, false), PassOutcome::Sleep(100));
    assert_eq!(r.attempts, 0);
    r.start_pass();
    assert_eq!(r.finish_pass(10, 0, false, true), PassOutcome::Finished);
}

#[test]
fn hidden_passes_end_the_round() {
    let mut r = RetryLoop::new();
    let mut passes = 0;
    while r.has_attempts_left() {
        r.start_pass();
        passes += 1;
        assert_eq!(r.finish_pass(100, 0, false, false), PassOutcome::Sleep(50));
    }
    assert_eq!(passes, 7);
}

fn run(state: &mut WorkerState, events: &[WorkerEvent]) -> Vec<WorkerAction> {
    events.iter().map(|e| state.step(*e)).collect()
}

#[test]
fn refresh_starts_a_round_and_exit_ends() {
    let mut s = WorkerState::Waiting;
    assert_eq!(s.step(WorkerEvent::Signal(Signal::Refresh)), WorkerAction::StartRound);
    assert_eq!(s, WorkerState::InRound);
    assert_eq!(s.step(WorkerEvent::Signal(Signal::Empty)), WorkerAction::ContinueRound);
    assert_eq!(s.step(WorkerEvent::RoundFinished), WorkerAction::Poll);
    assert_eq!(s, WorkerState::Draining(false));
    assert_eq!(s.step(WorkerEvent::Signal(Signal::Empty)), WorkerAction::Wait);
    assert_eq!(s, WorkerState::Waiting);
    assert_eq!(s.step(WorkerEvent::Signal(Signal::Exit)), WorkerAction::Stop);
    assert_eq!(s.step(WorkerEvent::Signal(Signal::Refresh)), WorkerAction::Stop);
    assert_eq!(s, WorkerState::Stopped);
}

#[test]
fn refresh_during_a_round_starts_it_over() {
    let mut s = WorkerState::Waiting;
    let actions = run(
        &mut s,
        &[
            WorkerEvent::Signal(Signal::Refresh),
            WorkerEvent::Signal(Signal::Empty),
            WorkerEvent::Signal(Signal::Refresh),
        ],
    );
    assert_eq!(actions, vec![WorkerAction::StartRound, WorkerAction::ContinueRound, WorkerAction::StartRound]);
    assert_eq!(s, WorkerState::InRound);
}

#[test]
fn refresh_while_draining_is_owed() {
    let mut s = WorkerState::InRound;
    let actions = run(
        &mut s,
        &[
            WorkerEvent::RoundFinished,
            WorkerEvent::Signal(Signal::Refresh),
            WorkerEvent::Signal(Signal::Refresh),
            WorkerEvent::Signal(Signal::Empty),
        ],
    );
    assert_eq!(
        actions,
        vec![WorkerAction::Poll, WorkerAction::Poll, WorkerAction::Poll, WorkerAction::StartRound]
    );
    assert_eq!(s, WorkerState::InRound);
}

#[test]
fn closed_channel_ends_the_worker() {
    for start in [WorkerState::Waiting, WorkerState::InRound, WorkerState::Draining(true)] {
        let mut s = start;
        assert_eq!(s.step(WorkerEvent::Signal(Signal::Disconnected)), WorkerAction::Stop);
        assert_eq!(s, WorkerState::Stopped);
    }
}

use rgb_panel::lifecycle::{Action, PanelController, Phase};
use rgb_panel::status::Status;

const FAIL: Status = Status::DriverError(-1);
const OK: Status = Status::Success;

/// Feeds the outcomes in order and returns every action asked for, the first included.
fn drive(outs: &[Status]) -> Vec<Action> {
    let mut c = PanelController::new();
    let mut actions = vec![c.next_action()];
    for o in outs {
        actions.push(c.complete(*o));
    }
    actions
}

fn draw_at(x: u32) -> Action {
    Action::DrawSprite { x0: x, y0: 0, x1: x + 32, y1: 32 }
}

#[test]
fn status_from_code() {
    assert_eq!(Status::from_code(0), Status::Success);
    assert_eq!(Status::from_code(259), Status::DriverError(259));
    assert!(Status::from_code(0).is_ok());
    assert!(!Status::from_code(-1).is_ok());
}

#[test]
fn create_failure_issues_nothing_else() {
    let actions = drive(&[FAIL, OK, OK, OK, OK]);
    assert_eq!(actions[0], Action::CreatePanel);
    for a in &actions[1..] {
        assert_eq!(*a, Action::Finish);
    }
}

#[test]
fn init_failure_releases_once() {
    let actions = drive(&[OK, OK, FAIL, OK, OK, OK]);
    assert_eq!(
        actions,
        vec![
            Action::CreatePanel,
            Action::ResetPanel,
            Action::InitPanel,
            Action::ReleasePanel,
            Action::Finish,
            Action::Finish,
            Action::Finish,
        ]
    );
}

#[test]
fn reset_failure_skips_init() {
    let actions = drive(&[OK, FAIL, OK, OK]);
    assert_eq!(
        actions,
        vec![
            Action::CreatePanel,
            Action::ResetPanel,
            Action::ReleasePanel,
            Action::Finish,
            Action::Finish,
        ]
    );
}

#[test]
fn backlight_failure_aborts_without_release() {
    let actions = drive(&[OK, OK, OK, Status::DriverError(7), OK]);
    assert_eq!(actions[4], Action::Abort { code: 7 });
    assert_eq!(actions[5], Action::Abort { code: 7 });
}

#[test]
fn loop_runs_until_draw_failure_then_releases_once() {
    let mut c = PanelController::new();
    for _ in 0..4 {
        c.complete(OK);
    }
    assert_eq!(c.next_action(), Action::AcquireFramebuffer);
    let mut frames = 0;
    while frames < 10 {
        assert_eq!(c.complete(OK), Action::FillFramebuffer);
        assert_eq!(c.complete(OK), draw_at(frames));
        assert_eq!(c.complete(OK), Action::Delay { ms: 100 });
        assert_eq!(c.complete(OK), Action::AcquireFramebuffer);
        frames += 1;
    }
    c.complete(OK);
    assert_eq!(c.complete(OK), draw_at(10));
    assert_eq!(c.complete(FAIL), Action::ReleasePanel);
    assert!(c.state().panel_live);
    assert_eq!(c.complete(OK), Action::Finish);
    assert!(!c.state().panel_live);
    assert_eq!(c.state().phase, Phase::Finished);
    assert_eq!(c.complete(OK), Action::Finish);
}

#[test]
fn cursor_wraps_after_768_frames() {
    let mut c = PanelController::new();
    for _ in 0..4 {
        c.complete(OK);
    }
    let mut xs = Vec::new();
    for _ in 0..(768 + 3) {
        c.complete(OK);
        match c.complete(OK) {
            Action::DrawSprite { x0, y0, x1, y1 } => {
                assert!(x1 <= 800);
                assert_eq!(x1, x0 + 32);
                assert_eq!((y0, y1), (0, 32));
                xs.push(x0);
            }
            other => panic!("expected a draw, got {:?}", other),
        }
        c.complete(OK);
        c.complete(OK);
    }
    for (k, x) in xs.iter().enumerate() {
        assert_eq!(*x as usize, k % 768);
    }
    assert_eq!(xs[767], 767);
    assert_eq!(xs[768], 0);
    assert_eq!(xs[770], 2);
}

#[test]
fn acquire_failure_skips_only_fill() {
    let mut c = PanelController::new();
    for _ in 0..4 {
        c.complete(OK);
    }
    assert_eq!(c.complete(FAIL), draw_at(0));
    assert_eq!(c.complete(OK), Action::Delay { ms: 100 });
    assert_eq!(c.complete(OK), Action::AcquireFramebuffer);
    assert_eq!(c.complete(OK), Action::FillFramebuffer);
    assert_eq!(c.complete(OK), draw_at(1));
    assert_eq!(c.complete(OK), Action::Delay { ms: 100 });
    assert_eq!(c.complete(OK), Action::AcquireFramebuffer);
    assert_eq!(c.complete(FAIL), draw_at(2));
}

#[test]
fn release_issued_at_most_once() {
    let runs: Vec<Vec<Status>> = vec![
        vec![FAIL; 6],
        vec![OK, FAIL, FAIL, FAIL],
        vec![OK, OK, FAIL, OK, FAIL],
        vec![OK, OK, OK, OK, OK, OK, FAIL, OK, OK, OK],
        vec![OK, OK, OK, OK, FAIL, FAIL, OK, FAIL, FAIL],
    ];
    for outs in runs {
        let actions = drive(&outs);
        let releases = actions.iter().filter(|a| **a == Action::ReleasePanel).count();
        assert!(releases <= 1);
    }
    let no_release = drive(&[FAIL, FAIL]);
    assert!(!no_release.contains(&Action::ReleasePanel));
}

use window_commands::{greet, Invocation, Next, WindowCall, WindowCommand};

/// A window that the host runtime would own, with failures that can be switched on.
struct MockWindow {
    maximized: bool,
    closed: bool,
    fail_with: Option<String>,
    fail_query_with: Option<String>,
    calls: Vec<WindowCall>,
}

impl MockWindow {
    fn new(maximized: bool) -> MockWindow {
        MockWindow { maximized, closed: false, fail_with: None, fail_query_with: None, calls: Vec::new() }
    }

    fn is_maximized(&mut self) -> Result<bool, String> {
        self.calls.push(WindowCall::IsMaximized);
        if self.closed {
            return Err("window not found".to_string());
        }
        match &self.fail_query_with {
            Some(m) => Err(m.clone()),
            None => Ok(self.maximized),
        }
    }

    fn operate(&mut self, call: WindowCall) -> Result<(), String> {
        self.calls.push(call);
        if self.closed {
            return Err("window not found".to_string());
        }
        if let Some(m) = &self.fail_with {
            return Err(m.clone());
        }
        match call {
            WindowCall::Maximize => self.maximized = true,
            WindowCall::Unmaximize => self.maximized = false,
            WindowCall::Close => self.closed = true,
            _ => {}
        }
        Ok(())
    }
}

fn invoke(command: WindowCommand, window: &mut MockWindow) -> (Result<(), String>, Vec<WindowCall>) {
    let mut inv = Invocation::new(command);
    let mut next = inv.next();
    loop {
        match next {
            Next::Call(WindowCall::IsMaximized) => {
                let answer = window.is_maximized();
                next = inv.query_returned(answer);
            }
            Next::Call(call) => {
                let answer = window.operate(call);
                next = inv.call_returned(answer);
            }
            Next::Finish(outcome) => {
                assert!(inv.is_finished());
                assert_eq!(inv.command(), command);
                assert_eq!(inv.issued(), &window.calls);
                return (outcome, inv.issued().clone());
            }
        }
    }
}

const ALL: [WindowCommand; 5] = [
    WindowCommand::Minimize,
    WindowCommand::Maximize,
    WindowCommand::Unmaximize,
    WindowCommand::ToggleMaximize,
    WindowCommand::Close,
];

#[test]
fn greet_ada() {
    assert_eq!(greet("Ada"), "Hello, Ada! You've been greeted from Rust!");
}

#[test]
fn greet_empty_and_unicode_names() {
    assert_eq!(greet(""), "Hello, ! You've been greeted from Rust!");
    assert_eq!(greet("Zoë 山田"), "Hello, Zoë 山田! You've been greeted from Rust!");
}

#[test]
fn every_command_succeeds_when_host_succeeds() {
    for command in ALL {
        for maximized in [false, true] {
            let mut window = MockWindow::new(maximized);
            let (outcome, _) = invoke(command, &mut window);
            assert_eq!(outcome, Ok(()));
        }
    }
}

#[test]
fn single_commands_issue_their_own_call() {
    let expected = [
        (WindowCommand::Minimize, WindowCall::Minimize),
        (WindowCommand::Maximize, WindowCall::Maximize),
        (WindowCommand::Unmaximize, WindowCall::Unmaximize),
        (WindowCommand::Close, WindowCall::Close),
    ];
    for (command, call) in expected {
        assert_eq!(command.first_call(), call);
        let mut window = MockWindow::new(false);
        let (_, calls) = invoke(command, &mut window);
        assert_eq!(calls, vec![call]);
    }
    assert_eq!(WindowCommand::ToggleMaximize.first_call(), WindowCall::IsMaximized);
}

#[test]
fn every_command_reports_host_failure_message() {
    for command in ALL {
        let mut window = MockWindow::new(true);
        window.fail_with = Some("the OS rejected the request".to_string());
        let (outcome, _) = invoke(command, &mut window);
        assert_eq!(outcome, Err("the OS rejected the request".to_string()));
    }
}

#[test]
fn toggle_reports_failed_query_and_stops() {
    let mut window = MockWindow::new(false);
    window.fail_query_with = Some("window not found".to_string());
    let (outcome, calls) = invoke(WindowCommand::ToggleMaximize, &mut window);
    assert_eq!(outcome, Err("window not found".to_string()));
    assert_eq!(calls, vec![WindowCall::IsMaximized]);
}

#[test]
fn toggle_maximized_window_unmaximizes_once() {
    let mut window = MockWindow::new(true);
    let (outcome, calls) = invoke(WindowCommand::ToggleMaximize, &mut window);
    assert_eq!(outcome, Ok(()));
    assert_eq!(calls, vec![WindowCall::IsMaximized, WindowCall::Unmaximize]);
    assert!(!window.maximized);
}

#[test]
fn toggle_unmaximized_window_maximizes_once() {
    let mut window = MockWindow::new(false);
    let (outcome, calls) = invoke(WindowCommand::ToggleMaximize, &mut window);
    assert_eq!(outcome, Ok(()));
    assert_eq!(calls, vec![WindowCall::IsMaximized, WindowCall::Maximize]);
    assert!(window.maximized);
}

#[test]
fn toggle_twice_restores_state() {
    let mut window = MockWindow::new(false);
    invoke(WindowCommand::ToggleMaximize, &mut window);
    assert!(window.maximized);
    window.calls.clear();
    invoke(WindowCommand::ToggleMaximize, &mut window);
    assert!(!window.maximized);
}

#[test]
fn closing_twice_fails_second_time_without_corruption() {
    let mut window = MockWindow::new(false);
    let (first, first_calls) = invoke(WindowCommand::Close, &mut window);
    assert_eq!(first, Ok(()));
    assert_eq!(first_calls, vec![WindowCall::Close]);
    window.calls.clear();
    let (second, second_calls) = invoke(WindowCommand::Close, &mut window);
    assert_eq!(second, Err("window not found".to_string()));
    assert_eq!(second_calls, vec![WindowCall::Close]);
    assert!(window.closed);
}

#[test]
fn scripted_runs_match_their_answers() {
    let inv = Invocation::run_scripted(WindowCommand::ToggleMaximize, Ok(true), Ok(()));
    assert!(inv.is_finished());
    assert_eq!(inv.issued(), &vec![WindowCall::IsMaximized, WindowCall::Unmaximize]);
    assert!(matches!(inv.next(), Next::Finish(Ok(()))));

    let inv = Invocation::run_scripted(
        WindowCommand::ToggleMaximize,
        Err("no window".to_string()),
        Ok(()),
    );
    assert_eq!(inv.issued(), &vec![WindowCall::IsMaximized]);
    assert!(matches!(inv.next(), Next::Finish(Err(m)) if m == "no window"));

    let inv = Invocation::run_scripted(WindowCommand::Close, Ok(false), Err("gone".to_string()));
    assert_eq!(inv.issued(), &vec![WindowCall::Close]);
    assert!(matches!(inv.next(), Next::Finish(Err(m)) if m == "gone"));

    let inv = Invocation::run_scripted(WindowCommand::Minimize, Err("unused".to_string()), Ok(()));
    assert_eq!(inv.issued(), &vec![WindowCall::Minimize]);
    assert!(matches!(inv.next(), Next::Finish(Ok(()))));
}

#[test]
fn fresh_invocation_asks_for_first_call() {
    let inv = Invocation::new(WindowCommand::Unmaximize);
    assert!(!inv.is_finished());
    assert!(matches!(inv.next(), Next::Call(WindowCall::Unmaximize)));
}

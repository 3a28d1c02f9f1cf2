//! What holds of every run of the window commands against any host.
use vstd::prelude::*;
use crate::window::{WindowCall, WindowCommand, run};

verus! {

/// How many times `call` occurs in `calls`.
pub open spec fn times_issued(calls: Seq<WindowCall>, call: WindowCall) -> nat
    decreases calls.len(),
{
    if calls.len() == 0 {
        0
    } else {
        times_issued(calls.drop_last(), call) + if calls.last() == call {
            1nat
        } else {
            0nat
        }
    }
}

/// When the host answers every call with success, each window command
/// succeeds, whatever the window's maximized state.
pub proof fn lemma_host_success_gives_success(c: WindowCommand, maximized: bool)
    ensures
        run(c, Ok(maximized), Ok(())).outcome == Some(Ok::<(), Seq<char>>(())),
{
}

/// When the host fails the window operation, every window command fails with
/// the host's message; toggling also fails with the host's message when the
/// maximized-state query itself fails, and then makes no further call.
pub proof fn lemma_host_failure_gives_its_message(
    c: WindowCommand,
    maximized: bool,
    message: Seq<char>,
    answer: Result<(), Seq<char>>,
)
    ensures
        run(c, Ok(maximized), Err(message)).outcome == Some(Err::<(), Seq<char>>(message)),
        run(WindowCommand::ToggleMaximize, Err(message), answer).outcome == Some(
            Err::<(), Seq<char>>(message),
        ),
        run(WindowCommand::ToggleMaximize, Err(message), answer).issued == seq![
            WindowCall::IsMaximized,
        ],
{
}

/// Toggling a maximized window issues exactly one unmaximize call and no
/// maximize call, whatever the host answers to it.
pub proof fn lemma_toggle_maximized_unmaximizes(answer: Result<(), Seq<char>>)
    ensures
        run(WindowCommand::ToggleMaximize, Ok(true), answer).issued == seq![
            WindowCall::IsMaximized,
            WindowCall::Unmaximize,
        ],
        times_issued(
            run(WindowCommand::ToggleMaximize, Ok(true), answer).issued,
            WindowCall::Unmaximize,
        ) == 1,
        times_issued(
            run(WindowCommand::ToggleMaximize, Ok(true), answer).issued,
            WindowCall::Maximize,
        ) == 0,
{
    let calls = run(WindowCommand::ToggleMaximize, Ok(true), answer).issued;
    assert(calls.drop_last() =~= seq![WindowCall::IsMaximized]);
    assert(calls.drop_last().drop_last() =~= Seq::<WindowCall>::empty());
    assert(times_issued(calls.drop_last().drop_last(), WindowCall::Maximize) == 0);
    assert(times_issued(calls.drop_last().drop_last(), WindowCall::Unmaximize) == 0);
    assert(times_issued(calls.drop_last(), WindowCall::Maximize) == 0);
    assert(times_issued(calls.drop_last(), WindowCall::Unmaximize) == 0);
}

/// Toggling a window that is not maximized issues exactly one maximize call
/// and no unmaximize call, whatever the host answers to it.
pub proof fn lemma_toggle_unmaximized_maximizes(answer: Result<(), Seq<char>>)
    ensures
        run(WindowCommand::ToggleMaximize, Ok(false), answer).issued == seq![
            WindowCall::IsMaximized,
            WindowCall::Maximize,
        ],
        times_issued(
            run(WindowCommand::ToggleMaximize, Ok(false), answer).issued,
            WindowCall::Maximize,
        ) == 1,
        times_issued(
            run(WindowCommand::ToggleMaximize, Ok(false), answer).issued,
            WindowCall::Unmaximize,
        ) == 0,
{
    let calls = run(WindowCommand::ToggleMaximize, Ok(false), answer).issued;
    assert(calls.drop_last() =~= seq![WindowCall::IsMaximized]);
    assert(calls.drop_last().drop_last() =~= Seq::<WindowCall>::empty());
    assert(times_issued(calls.drop_last().drop_last(), WindowCall::Maximize) == 0);
    assert(times_issued(calls.drop_last().drop_last(), WindowCall::Unmaximize) == 0);
    assert(times_issued(calls.drop_last(), WindowCall::Maximize) == 0);
    assert(times_issued(calls.drop_last(), WindowCall::Unmaximize) == 0);
}

/// Two close invocations on one window are independent: each makes exactly
/// one close call and returns exactly the host's answer to it, so the second
/// succeeds where the host treats it as a no-op and fails with the host's
/// message where the host rejects it. No state passes from one to the other.
pub proof fn lemma_close_twice(
    first: Result<(), Seq<char>>,
    second: Result<(), Seq<char>>,
    query: Result<bool, Seq<char>>,
)
    ensures
        run(WindowCommand::Close, query, first).issued == seq![WindowCall::Close],
        run(WindowCommand::Close, query, first).outcome == Some(first),
        run(WindowCommand::Close, query, second).issued == seq![WindowCall::Close],
        run(WindowCommand::Close, query, second).outcome == Some(second),
{
}

} // verus!

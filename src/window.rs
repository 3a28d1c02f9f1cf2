use vstd::prelude::*;

verus! {

/// A primitive operation that the host runtime performs on a window.
#[derive(Clone, Copy, Debug, PartialEq, Eq, Structural)]
pub enum WindowCall {
    Minimize,
    Maximize,
    Unmaximize,
    IsMaximized,
    Close,
}

/// A window command that the front end may invoke.
#[derive(Clone, Copy, Debug, PartialEq, Eq, Structural)]
pub enum WindowCommand {
    Minimize,
    Maximize,
    Unmaximize,
    ToggleMaximize,
    Close,
}

/// What an invocation needs next: the host call to make, or its final outcome.
#[derive(Debug)]
pub enum Next {
    Call(WindowCall),
    Finish(Result<(), String>),
}

/// An invocation as a mathematical value.
pub struct InvocationState {
    pub command: WindowCommand,
    /// The host calls issued so far, in order; the last is the one in flight
    /// until the outcome is known.
    pub issued: Seq<WindowCall>,
    /// The command's outcome, once known; a failure holds the host's message.
    pub outcome: Option<Result<(), Seq<char>>>,
}

/// A result with its message seen as characters.
pub open spec fn result_view(r: Result<(), String>) -> Result<(), Seq<char>> {
    match r {
        Ok(()) => Ok(()),
        Err(m) => Err(m@),
    }
}

/// An answer to the is-maximized query with its message seen as characters.
pub open spec fn query_view(r: Result<bool, String>) -> Result<bool, Seq<char>> {
    match r {
        Ok(b) => Ok(b),
        Err(m) => Err(m@),
    }
}

/// The host call with which a command begins.
pub open spec fn first_call(c: WindowCommand) -> WindowCall {
    match c {
        WindowCommand::Minimize => WindowCall::Minimize,
        WindowCommand::Maximize => WindowCall::Maximize,
        WindowCommand::Unmaximize => WindowCall::Unmaximize,
        WindowCommand::ToggleMaximize => WindowCall::IsMaximized,
        WindowCommand::Close => WindowCall::Close,
    }
}

/// The call that toggling makes once the window's maximized state is known.
pub open spec fn toggle_call(maximized: bool) -> WindowCall {
    if maximized {
        WindowCall::Unmaximize
    } else {
        WindowCall::Maximize
    }
}

/// The state of a command that has just been invoked.
pub open spec fn started(c: WindowCommand) -> InvocationState {
    InvocationState { command: c, issued: seq![first_call(c)], outcome: None }
}

/// The host call in flight.
pub open spec fn pending(s: InvocationState) -> WindowCall {
    s.issued.last()
}

/// The state after the host answered the is-maximized query.
pub open spec fn after_query(s: InvocationState, answer: Result<bool, Seq<char>>) -> InvocationState {
    match answer {
        Ok(maximized) => InvocationState { issued: s.issued.push(toggle_call(maximized)), ..s },
        Err(m) => InvocationState { outcome: Some(Err(m)), ..s },
    }
}

/// The state after the host answered a window operation: its answer is the outcome.
pub open spec fn after_call(s: InvocationState, answer: Result<(), Seq<char>>) -> InvocationState {
    InvocationState { outcome: Some(answer), ..s }
}

/// The states that an invocation passes through.
pub open spec fn well_formed(s: InvocationState) -> bool {
    &&& s.issued.len() >= 1
    &&& s.issued[0] == first_call(s.command)
    &&& if s.command == WindowCommand::ToggleMaximize {
        ||| s.issued.len() == 1
        ||| (s.issued.len() == 2 && s.issued[1] != WindowCall::IsMaximized)
    } else {
        s.issued.len() == 1
    }
}

/// The final state of command `c` when the host answers the is-maximized
/// query, if one is made, with `query`, and the window operation, if one is
/// made, with `answer`.
pub open spec fn run(
    c: WindowCommand,
    query: Result<bool, Seq<char>>,
    answer: Result<(), Seq<char>>,
) -> InvocationState {
    if c == WindowCommand::ToggleMaximize {
        let s = after_query(started(c), query);
        if s.outcome is Some {
            s
        } else {
            after_call(s, answer)
        }
    } else {
        after_call(started(c), answer)
    }
}

/// `n` is what state `s` asks for next.
pub open spec fn next_of(s: InvocationState, n: Next) -> bool {
    match s.outcome {
        Some(o) => match n {
            Next::Finish(r) => result_view(r) == o,
            Next::Call(_) => false,
        },
        None => n == Next::Call(pending(s)),
    }
}

impl WindowCommand {
    /// The host call with which this command begins.
    pub fn first_call(self) -> (r: WindowCall)
        ensures
            r == first_call(self),
    {
        match self {
            WindowCommand::Minimize => WindowCall::Minimize,
            WindowCommand::Maximize => WindowCall::Maximize,
            WindowCommand::Unmaximize => WindowCall::Unmaximize,
            WindowCommand::ToggleMaximize => WindowCall::IsMaximized,
            WindowCommand::Close => WindowCall::Close,
        }
    }
}

/// One invocation of a window command, from its first host call to its outcome.
pub struct Invocation {
    command: WindowCommand,
    issued: Vec<WindowCall>,
    outcome: Option<Result<(), String>>,
}

impl View for Invocation {
    type V = InvocationState;

    closed spec fn view(&self) -> InvocationState {
        InvocationState {
            command: self.command,
            issued: self.issued@,
            outcome: match self.outcome {
                Some(r) => Some(result_view(r)),
                None => None,
            },
        }
    }
}

fn copy_result(r: &Result<(), String>) -> (c: Result<(), String>)
    ensures
        result_view(c) == result_view(*r),
{
    match r {
        Ok(()) => Ok(()),
        Err(m) => Err(m.clone()),
    }
}

impl Invocation {
    /// Invokes `command`: its first host call is then in flight.
    pub fn new(command: WindowCommand) -> (r: Invocation)
        ensures
            r@ == started(command),
            well_formed(r@),
    {
        let mut issued: Vec<WindowCall> = Vec::new();
        issued.push(command.first_call());
        proof {
            assert(issued@ =~= seq![first_call(command)]);
        }
        Invocation { command, issued, outcome: None }
    }

    /// The command being invoked.
    pub fn command(&self) -> (r: WindowCommand)
        ensures
            r == self@.command,
    {
        self.command
    }

    /// The host calls issued so far, in order.
    pub fn issued(&self) -> (r: &Vec<WindowCall>)
        ensures
            r@ == self@.issued,
    {
        &self.issued
    }

    /// Whether the outcome is known.
    pub fn is_finished(&self) -> (r: bool)
        ensures
            r == self@.outcome is Some,
    {
        self.outcome.is_some()
    }

    /// The host call to make next, or the outcome once it is known.
    pub fn next(&self) -> (r: Next)
        requires
            well_formed(self@),
        ensures
            next_of(self@, r),
    {
        match &self.outcome {
            Some(o) => Next::Finish(copy_result(o)),
            None => Next::Call(self.issued[self.issued.len() - 1]),
        }
    }

    /// Takes the host's answer to the is-maximized query.
    pub fn query_returned(&mut self, answer: Result<bool, String>) -> (r: Next)
        requires
            well_formed(old(self)@),
            old(self)@.outcome is None,
            pending(old(self)@) == WindowCall::IsMaximized,
        ensures
            final(self)@ == after_query(
                old(self)@,
                query_view(answer),
            ),
            well_formed(final(self)@),
            next_of(final(self)@, r),
    {
        match answer {
            Ok(maximized) => {
                let call = if maximized {
                    WindowCall::Unmaximize
                } else {
                    WindowCall::Maximize
                };
                self.issued.push(call);
                Next::Call(call)
            },
            Err(m) => {
                let reported = m.clone();
                self.outcome = Some(Err(m));
                Next::Finish(Err(reported))
            },
        }
    }

    /// Takes the host's answer to the window operation in flight: it is the
    /// command's outcome.
    pub fn call_returned(&mut self, answer: Result<(), String>) -> (r: Next)
        requires
            well_formed(old(self)@),
            old(self)@.outcome is None,
            pending(old(self)@) != WindowCall::IsMaximized,
        ensures
            final(self)@ == after_call(old(self)@, result_view(answer)),
            well_formed(final(self)@),
            next_of(final(self)@, r),
    {
        let reported = copy_result(&answer);
        self.outcome = Some(answer);
        Next::Finish(reported)
    }

    /// Runs `command` to its outcome against a host that answers the
    /// is-maximized query, if one is made, with `query` and the window
    /// operation, if one is made, with `answer`.
    pub fn run_scripted(
        command: WindowCommand,
        query: Result<bool, String>,
        answer: Result<(), String>,
    ) -> (r: Invocation)
        ensures
            r@ == run(
                command,
                query_view(query),
                result_view(answer),
            ),
            well_formed(r@),
            r@.outcome is Some,
    {
        let mut inv = Invocation::new(command);
        if command.first_call() == WindowCall::IsMaximized {
            match inv.query_returned(query) {
                Next::Call(_) => {
                    inv.call_returned(answer);
                },
                Next::Finish(_) => {},
            }
        } else {
            inv.call_returned(answer);
        }
        inv
    }
}

} // verus!

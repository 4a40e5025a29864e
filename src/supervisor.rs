//! The supervisor of the inference process: at most one instance runs, and
//! start and stop are decided against the current state.
use vstd::prelude::*;
use vstd::string::StringExecFns;

verus! {

/// The program and script that start the inference process.
#[derive(Debug, Clone)]
pub struct LaunchCommand {
    pub program: String,
    pub script: String,
}

/// Why the inference process could not be spawned.
#[derive(Debug, Clone)]
pub enum SpawnFailure {
    /// The script is not on disk.
    NotFound,
    /// The operating system refused to spawn it; its message.
    OsError(String),
}

#[derive(Debug, Clone)]
pub enum StartError {
    AlreadyRunning,
    SpawnFailed(SpawnFailure),
}

#[derive(Debug, Clone, Copy, PartialEq, Eq, Structural)]
pub enum StopError {
    NotRunning,
}

/// How a start request ends.
#[derive(Debug, Clone, Copy, PartialEq, Eq, Structural)]
pub enum StartOutcome {
    Started,
    AlreadyRunning,
    NotFound,
    OsError,
}

/// How a start request ends, from whether the process runs, whether the script
/// exists and whether spawning it succeeds.
pub open spec fn start_outcome(running: bool, script_exists: bool, spawn_ok: bool) -> StartOutcome {
    if running {
        StartOutcome::AlreadyRunning
    } else if !script_exists {
        StartOutcome::NotFound
    } else if !spawn_ok {
        StartOutcome::OsError
    } else {
        StartOutcome::Started
    }
}

/// Whether the process runs after a start request.
pub open spec fn running_after_start(running: bool, script_exists: bool, spawn_ok: bool) -> bool {
    running || (script_exists && spawn_ok)
}

pub open spec fn outcome_of(r: Result<(), StartError>) -> StartOutcome {
    match r {
        Ok(()) => StartOutcome::Started,
        Err(StartError::AlreadyRunning) => StartOutcome::AlreadyRunning,
        Err(StartError::SpawnFailed(SpawnFailure::NotFound)) => StartOutcome::NotFound,
        Err(StartError::SpawnFailed(SpawnFailure::OsError(_))) => StartOutcome::OsError,
    }
}

/// The path of the interpreter inside the project's virtual environment.
pub fn python_path(windows: bool) -> (r: String)
    ensures
        windows ==> r@ == "./venv/Scripts/python.exe"@,
        !windows ==> r@ == "./venv/bin/python"@,
{
    if windows {
        String::from_str("./venv/Scripts/python.exe")
    } else {
        String::from_str("./venv/bin/python")
    }
}

/// The supervised process: `H` is the handle of a running instance.
pub struct ChatbotProcess<H> {
    handle: Option<H>,
}

impl<H> ChatbotProcess<H> {
    pub closed spec fn running(&self) -> bool {
        self.handle is Some
    }

    pub closed spec fn handle_spec(&self) -> Option<H> {
        self.handle
    }

    pub fn new() -> (r: ChatbotProcess<H>)
        ensures
            !r.running(),
    {
        ChatbotProcess { handle: None }
    }

    pub fn is_running(&self) -> (r: bool)
        ensures
            r == self.running(),
    {
        self.handle.is_some()
    }

    /// First half of a start: refuses when an instance runs or the script is
    /// missing, and otherwise says what to spawn. Changes nothing.
    pub fn start_ai_chatbot(&self, script_exists: bool, windows: bool) -> (r: Result<
        LaunchCommand,
        StartError,
    >)
        ensures
            r is Ok <==> !self.running() && script_exists,
            r is Err ==> outcome_of(Err(r->Err_0)) == start_outcome(
                self.running(),
                script_exists,
                true,
            ),
            r is Ok ==> r->Ok_0.script@ == "./ai_chatbot.py"@ && (windows ==> r->Ok_0.program@
                == "./venv/Scripts/python.exe"@) && (!windows ==> r->Ok_0.program@
                == "./venv/bin/python"@),
    {
        if self.handle.is_some() {
            return Err(StartError::AlreadyRunning);
        }
        if !script_exists {
            return Err(StartError::SpawnFailed(SpawnFailure::NotFound));
        }
        Ok(LaunchCommand { program: python_path(windows), script: String::from_str("./ai_chatbot.py") })
    }

    /// Second half of a start, with what spawning gave: a handle makes the
    /// process running; an error leaves it stopped.
    pub fn run_chatbot(&mut self, spawned: Result<H, String>) -> (r: Result<(), StartError>)
        requires
            !old(self).running(),
        ensures
            outcome_of(r) == start_outcome(false, true, spawned is Ok),
            final(self).running() == running_after_start(false, true, spawned is Ok),
            spawned is Ok ==> final(self).handle_spec() == Some(spawned->Ok_0),
            spawned is Err ==> r is Err && r->Err_0 is SpawnFailed
                && r->Err_0->SpawnFailed_0 is OsError
                && r->Err_0->SpawnFailed_0->OsError_0 == spawned->Err_0,
    {
        match spawned {
            Ok(h) => {
                self.handle = Some(h);
                Ok(())
            },
            Err(e) => Err(StartError::SpawnFailed(SpawnFailure::OsError(e))),
        }
    }

    /// Stops the running instance: hands its handle back for termination and
    /// leaves the process stopped. When none runs, fails and changes nothing.
    pub fn stop_chatbot(&mut self) -> (r: Result<H, StopError>)
        ensures
            !final(self).running(),
            !old(self).running() ==> r == Err::<H, StopError>(StopError::NotRunning)
                && *final(self) == *old(self),
            old(self).running() ==> r == Ok::<H, StopError>(old(self).handle_spec()->Some_0),
    {
        match self.handle.take() {
            Some(h) => Ok(h),
            None => Err(StopError::NotRunning),
        }
    }
}

/// The reply to a start request.
pub fn start_reply(r: &Result<(), StartError>) -> (t: String)
    ensures
        outcome_of(*r) == StartOutcome::Started ==> t@ == "\u{2705} Chatbot started successfully."@,
        outcome_of(*r) == StartOutcome::AlreadyRunning ==> t@
            == "\u{26a0}\u{fe0f} Chatbot is already running."@,
        outcome_of(*r) == StartOutcome::NotFound ==> t@ == "\u{274c} ai_chatbot.py not found."@,
        (*r matches Err(StartError::SpawnFailed(SpawnFailure::OsError(e)))) ==> t@
            == "\u{274c} Failed to start chatbot: "@ + r->Err_0->SpawnFailed_0->OsError_0@,
{
    match r {
        Ok(()) => String::from_str("\u{2705} Chatbot started successfully."),
        Err(StartError::AlreadyRunning) => String::from_str(
            "\u{26a0}\u{fe0f} Chatbot is already running.",
        ),
        Err(StartError::SpawnFailed(SpawnFailure::NotFound)) => String::from_str(
            "\u{274c} ai_chatbot.py not found.",
        ),
        Err(StartError::SpawnFailed(SpawnFailure::OsError(e))) => String::from_str(
            "\u{274c} Failed to start chatbot: ",
        ).concat(e.as_str()),
    }
}

/// The reply to a stop request.
pub fn stop_reply(stopped: bool) -> (t: String)
    ensures
        stopped ==> t@ == "\u{1f6d1} Chatbot has been stopped."@,
        !stopped ==> t@ == "\u{26a0}\u{fe0f} Chatbot is not running."@,
{
    if stopped {
        String::from_str("\u{1f6d1} Chatbot has been stopped.")
    } else {
        String::from_str("\u{26a0}\u{fe0f} Chatbot is not running.")
    }
}

/// Two start requests in a row, with no stop between them and a script that
/// spawns: whichever is served first starts the process, the other finds it
/// running, and the process runs afterwards.
pub proof fn lemma_start_twice(spawn_ok_second: bool)
    ensures
        ({
            let first = start_outcome(false, true, true);
            let running = running_after_start(false, true, true);
            let second = start_outcome(running, true, spawn_ok_second);
            &&& first == StartOutcome::Started
            &&& second == StartOutcome::AlreadyRunning
            &&& running_after_start(running, true, spawn_ok_second)
        }),
{
}

} // verus!

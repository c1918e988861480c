//! Daemon IPC lines beyond core intents: the `orchestration.continue`
//! control action and its response.

use vstd::prelude::*;
use crate::error::RmngError;
use crate::intent::IncomingIntent;
use crate::text::{concat3, decimal, decimal_string, owned, str_equal, trim, trim_bounds};

verus! {

/// One line sent to the daemon: an intent, or a request to resume an
/// orchestration loop of a session.
#[derive(Debug, Clone)]
pub enum DaemonLine {
    Intent(IncomingIntent),
    OrchestrationContinue { session_id: String },
}

/// How a line with the given `action` and `session_id` is read when it is a
/// continue request: the session id is required and is trimmed; a blank id
/// is refused. Lines with another action are intents.
pub open spec fn continue_outcome(session_id: Option<Seq<char>>) -> Result<Seq<char>, Seq<char>> {
    match session_id {
        None => Err("orchestration.continue requires session_id"@),
        Some(s) => if trim(s).len() == 0 {
            Err("orchestration.continue session_id must not be empty"@)
        } else {
            Ok(trim(s))
        },
    }
}

/// The reading of a decoded line's `action` and `session_id`. `None` means
/// the line is not a continue request and is to be parsed as an intent.
pub fn orchestration_continue_line(action: &str, session_id: Option<String>) -> (r: Option<Result<DaemonLine, RmngError>>)
    ensures
        r is None <==> action@ != "orchestration.continue"@,
        r matches Some(x) ==> match continue_outcome(match session_id { Some(s) => Some(s@), None => None }) {
            Ok(id) => x matches Ok(DaemonLine::OrchestrationContinue { session_id: got }) && got@ == id,
            Err(m) => x matches Err(RmngError::InvalidIntent(got)) && got@ == m,
        },
{
    if !str_equal(action, "orchestration.continue") {
        return None;
    }
    match session_id {
        None => Some(Err(RmngError::InvalidIntent(owned("orchestration.continue requires session_id")))),
        Some(s) => {
            let (a, b) = trim_bounds(s.as_str());
            if a == b {
                Some(Err(RmngError::InvalidIntent(owned("orchestration.continue session_id must not be empty"))))
            } else {
                let id = owned(s.as_str().substring_char(a, b));
                Some(Ok(DaemonLine::OrchestrationContinue { session_id: id }))
            }
        },
    }
}

/// Response of the daemon to `orchestration.continue`.
#[derive(Debug, Clone)]
pub struct OrchestrationContinueResponse {
    pub ok: bool,
    pub action: String,
    pub session_id: String,
    pub steps_run: u32,
    pub finished: bool,
    pub status: String,
    pub error: Option<String>,
    pub dispatch_actions: Vec<String>,
}

impl OrchestrationContinueResponse {
    pub fn success(
        session_id: &str,
        steps_run: u32,
        finished: bool,
        status: &str,
        dispatch_actions: Vec<String>,
    ) -> (r: Self)
        ensures
            r.ok,
            r.action@ == "orchestration.continue"@,
            r.session_id@ == session_id@,
            r.steps_run == steps_run,
            r.finished == finished,
            r.status@ == status@,
            r.error is None,
            r.dispatch_actions@ == dispatch_actions@,
    {
        OrchestrationContinueResponse {
            ok: true,
            action: owned("orchestration.continue"),
            session_id: owned(session_id),
            steps_run,
            finished,
            status: owned(status),
            error: None,
            dispatch_actions,
        }
    }

    pub fn failure(session_id: &str, error: &str) -> (r: Self)
        ensures
            !r.ok,
            r.action@ == "orchestration.continue"@,
            r.session_id@ == session_id@,
            r.steps_run == 0,
            r.finished,
            r.status@ == "failed"@,
            r.error matches Some(e) && e@ == error@,
            r.dispatch_actions@.len() == 0,
    {
        OrchestrationContinueResponse {
            ok: false,
            action: owned("orchestration.continue"),
            session_id: owned(session_id),
            steps_run: 0,
            finished: true,
            status: owned("failed"),
            error: Some(owned(error)),
            dispatch_actions: Vec::new(),
        }
    }

    pub fn timed_out(session_id: &str, timeout_secs: u64) -> (r: Self)
        ensures
            !r.ok,
            r.action@ == "orchestration.continue"@,
            r.session_id@ == session_id@,
            r.steps_run == 0,
            r.finished,
            r.status@ == "timed_out"@,
            r.error matches Some(e) && e@ == "auto-continue timed out after "@ + decimal(timeout_secs as nat) + "s"@,
            r.dispatch_actions@.len() == 0,
    {
        let secs = decimal_string(timeout_secs);
        OrchestrationContinueResponse {
            ok: false,
            action: owned("orchestration.continue"),
            session_id: owned(session_id),
            steps_run: 0,
            finished: true,
            status: owned("timed_out"),
            error: Some(concat3("auto-continue timed out after ", secs.as_str(), "s")),
            dispatch_actions: Vec::new(),
        }
    }
}

} // verus!

//! The dispatcher: it maps the registry's active selection to an identity,
//! fixes the exact invocation of the external authenticator, and classifies
//! the spawn outcome into the user-facing reports.

use vstd::prelude::*;
use vstd::string::StringExecFns;

use crate::registry::Registry;

verus! {

/// How starting the external authenticator went, as seen by the caller that
/// spawned it. Only whether the process could be started is judged; its own
/// exit status is never inspected.
#[derive(Clone, Copy, Debug, PartialEq, Eq, Structural)]
pub enum SpawnOutcome {
    /// The process started.
    Spawned,
    /// The executable does not exist on the system.
    ToolNotFound,
    /// The spawn failed in some other way.
    OtherFailure,
}

/// A user-facing report event.
pub enum Report {
    /// The trigger binding succeeded and scanning is available.
    Ready,
    /// Every display was examined and none carried a login code.
    NoCode,
    /// The external authenticator is not installed.
    ToolMissing,
    /// The authenticator was started for this identity.
    LoggedIn(String),
}

/// Mathematical image of a `Report`.
pub enum ReportView {
    Ready,
    NoCode,
    ToolMissing,
    LoggedIn(Seq<char>),
}

impl View for Report {
    type V = ReportView;

    open spec fn view(&self) -> ReportView {
        match self {
            Report::Ready => ReportView::Ready,
            Report::NoCode => ReportView::NoCode,
            Report::ToolMissing => ReportView::ToolMissing,
            Report::LoggedIn(u) => ReportView::LoggedIn(u@),
        }
    }
}

/// The exact wording of each report.
pub open spec fn report_text(r: ReportView) -> Seq<char> {
    match r {
        ReportView::Ready => "Now listening for Shift + F8 to take a screenshot and login to Steamguard!"@,
        ReportView::NoCode => "No QR Codes found on screen!"@,
        ReportView::ToolMissing => "Steamguard not found!"@,
        ReportView::LoggedIn(u) => "Logged in using: "@ + u + "!"@,
    }
}

impl Report {
    /// Renders the report for the notification channel.
    pub fn text(&self) -> (t: String)
        ensures
            t@ == report_text(self@),
    {
        match self {
            Report::Ready => "Now listening for Shift + F8 to take a screenshot and login to Steamguard!".to_owned(),
            Report::NoCode => "No QR Codes found on screen!".to_owned(),
            Report::ToolMissing => "Steamguard not found!".to_owned(),
            Report::LoggedIn(u) => "Logged in using: ".to_owned().concat(u.as_str()).concat("!"),
        }
    }
}

/// One invocation of the external authenticator: the program and its exact
/// argument list.
pub struct Invocation {
    pub program: String,
    pub args: Vec<String>,
}

/// Fixes the invocation for the registry's active identity and a decoded
/// payload: the identity flag with the account name, the QR-login
/// subcommand, and the payload flag with the decoded text. With no accounts
/// loaded there is no selection and dispatch is refused.
pub fn prepare_dispatch(reg: &Registry, payload: &str) -> (r: Option<Invocation>)
    requires
        reg.wf(),
    ensures
        match reg@.active {
            Some(i) => r matches Some(inv)
                && inv.program@ == "steamguard"@
                && inv.args@.len() == 5
                && inv.args@[0]@ == "-u"@
                && inv.args@[1]@ == reg@.accounts[i].username
                && inv.args@[2]@ == "qr-login"@
                && inv.args@[3]@ == "--url"@
                && inv.args@[4]@ == payload@,
            None => r is None,
        },
{
    match reg.active_identity() {
        Some(identity) => {
            let mut args: Vec<String> = Vec::new();
            args.push("-u".to_owned());
            args.push(identity);
            args.push("qr-login".to_owned());
            args.push("--url".to_owned());
            args.push(payload.to_owned());
            Some(Invocation { program: "steamguard".to_owned(), args })
        },
        None => None,
    }
}

/// Classifies a spawn outcome: a missing tool and a successful start are
/// reported with their exact messages; any other spawn failure is passed
/// over in silence.
pub fn classify_spawn(identity: &str, outcome: &SpawnOutcome) -> (r: Option<Report>)
    ensures
        match *outcome {
            SpawnOutcome::Spawned => r matches Some(rep)
                && rep@ == ReportView::LoggedIn(identity@),
            SpawnOutcome::ToolNotFound => r matches Some(rep) && rep@ == ReportView::ToolMissing,
            SpawnOutcome::OtherFailure => r is None,
        },
{
    match outcome {
        SpawnOutcome::Spawned => Some(Report::LoggedIn(identity.to_owned())),
        SpawnOutcome::ToolNotFound => Some(Report::ToolMissing),
        SpawnOutcome::OtherFailure => None,
    }
}

} // verus!

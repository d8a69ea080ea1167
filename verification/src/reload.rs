//! The watch-rebuild-broadcast cycle: what is watched, what a watch event
//! calls for, and what follows a rebuild.

use crate::rebuild::BuildResult;
use crate::registry::{reaches_each_once, Delivery, Registry};
use vstd::prelude::*;
use vstd::string::StringExecFns;

verus! {

/// The text that tells a connected page to reload.
pub const RELOAD_SIGNAL: &'static str = "reload";

/// A place in the project that is watched for changes.
#[derive(Debug, Clone, PartialEq, Eq)]
pub struct WatchTarget {
    /// The path, relative to the project's root.
    pub path: &'static str,
    /// Whether everything below the path is watched too.
    pub recursive: bool,
}

/// The places that are watched: the source tree and the content tree with
/// all that is below them, and the entry file alone.
pub open spec fn watched() -> Seq<(Seq<char>, bool)> {
    seq![("src"@, true), ("contents"@, true), ("index.html"@, false)]
}

/// The places to watch, in the order in which the watches are set up.
pub fn watch_targets() -> (targets: Vec<WatchTarget>)
    ensures
        targets@.len() == watched().len(),
        targets@.map_values(|t: WatchTarget| (t.path@, t.recursive)) == watched(),
{
    let targets: Vec<WatchTarget> = vec![
        WatchTarget { path: "src", recursive: true },
        WatchTarget { path: "contents", recursive: true },
        WatchTarget { path: "index.html", recursive: false },
    ];
    assert(targets@.map_values(|t: WatchTarget| (t.path@, t.recursive)) =~= watched());
    targets
}

/// The diagnostic for a watch that could not be set up. It names the path.
pub fn watch_failure(target: &WatchTarget, reason: &str) -> (diagnostic: String)
    ensures
        diagnostic@ == "cannot watch "@ + target.path@ + ": "@ + reason@,
{
    let mut diagnostic = String::from_str("cannot watch ");
    diagnostic.append(target.path);
    diagnostic.append(": ");
    diagnostic.append(reason);
    diagnostic
}

/// What the watcher reports.
#[derive(Debug, Clone, Copy, PartialEq, Eq, Structural)]
pub enum WatchEvent {
    /// Something under a watched path changed.
    Changed,
    /// The watcher failed on one event.
    Faulted,
}

/// What a watch event calls for.
#[derive(Debug, Clone, Copy, PartialEq, Eq, Structural)]
pub enum WatchStep {
    /// Run the rebuild, then conclude the cycle with its result.
    Rebuild,
    /// Report the fault and go on watching.
    ReportFault,
}

/// The step that `event` calls for: every change starts a rebuild, and a
/// fault never does.
pub open spec fn step_for(event: WatchEvent) -> WatchStep {
    match event {
        WatchEvent::Changed => WatchStep::Rebuild,
        WatchEvent::Faulted => WatchStep::ReportFault,
    }
}

/// Decides what to do on one event from the watcher.
pub fn on_watch_event(event: WatchEvent) -> (step: WatchStep)
    ensures
        step == step_for(event),
{
    match event {
        WatchEvent::Changed => WatchStep::Rebuild,
        WatchEvent::Faulted => WatchStep::ReportFault,
    }
}

/// Sends the reload signal to every registered connection, one attempt
/// each, and reports the attempts.
pub fn broadcast_reload(registry: &Registry) -> (report: Vec<Delivery>)
    ensures
        reaches_each_once(report@, registry@.dom()),
{
    registry.broadcast(RELOAD_SIGNAL)
}

/// How one cycle ended.
#[derive(Debug, Clone, PartialEq, Eq)]
pub enum CycleOutcome {
    /// The build succeeded and the reload signal went out once.
    Reloaded { report: Vec<Delivery> },
    /// The build failed and no signal went out.
    BuildFailed { diagnostics: String },
}

/// Concludes a cycle with the result of its rebuild. After a success the
/// reload signal is broadcast once; after a failure nothing is sent and the
/// build's diagnostics are handed on.
pub fn conclude(registry: &Registry, result: &BuildResult) -> (outcome: CycleOutcome)
    ensures
        result.success <==> outcome is Reloaded,
        outcome matches CycleOutcome::Reloaded { report } ==> reaches_each_once(
            report@,
            registry@.dom(),
        ),
        outcome matches CycleOutcome::BuildFailed { diagnostics } ==> diagnostics@
            == result.diagnostics@,
{
    if result.success {
        CycleOutcome::Reloaded { report: broadcast_reload(registry) }
    } else {
        CycleOutcome::BuildFailed { diagnostics: result.diagnostics.clone() }
    }
}

} // verus!

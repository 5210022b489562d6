//! The console client's connection procedure, as decisions between its
//! steps: after each step's outside work the client reports success or
//! failure (or nothing) and either goes on to the next step or stops.
use vstd::prelude::*;

verus! {

/// The steps of bringing the tunnel up, in order.
#[derive(Debug, Clone, Copy, PartialEq, Eq)]
pub enum ConnectStep {
    /// Load the Wintun driver library.
    LoadDriver,
    /// Create the tunnel adapter.
    CreateAdapter,
    /// Open the tunnel adapter left by an earlier run.
    OpenAdapter,
    /// Give the adapter its address (then start the adapter's session).
    ConfigureAddress,
    /// Find the server's IPv4 address.
    Resolve,
    /// Send the handshake probe.
    SendHandshake,
    /// Wait for the server's answer to the probe and check it.
    AwaitHandshake,
    /// Set the DNS server and the routes through the tunnel.
    SetupRoutes,
    /// The tunnel is up; packets are forwarded until the user stops.
    Connected,
}

/// What the client prints after a step.
#[derive(Debug, Clone, Copy, PartialEq, Eq)]
pub enum StepReport {
    /// Nothing.
    Silent,
    /// The step's success mark.
    Succeeded,
    /// The step's failure mark and the error.
    Failed,
}

/// What the client does after a step: what it prints, and the next step, or
/// `None` when it stops with a failure.
#[derive(Debug, Clone, Copy, PartialEq, Eq)]
pub struct StepDecision {
    pub report: StepReport,
    pub next: Option<ConnectStep>,
}

/// The decision after `step`, whose outside work succeeded or not. Loading
/// the driver, opening an adapter, finding, reaching and hearing back from
/// the server are required; a failed creation falls back to opening an
/// existing adapter; a failed address setting is reported and the client
/// goes on.
pub open spec fn decision(step: ConnectStep, succeeded: bool) -> StepDecision {
    let stop = StepDecision { report: StepReport::Failed, next: None };
    match step {
        ConnectStep::LoadDriver => if succeeded {
            StepDecision { report: StepReport::Succeeded, next: Some(ConnectStep::CreateAdapter) }
        } else {
            stop
        },
        ConnectStep::CreateAdapter => if succeeded {
            StepDecision { report: StepReport::Succeeded, next: Some(ConnectStep::ConfigureAddress) }
        } else {
            StepDecision { report: StepReport::Silent, next: Some(ConnectStep::OpenAdapter) }
        },
        ConnectStep::OpenAdapter => if succeeded {
            StepDecision { report: StepReport::Succeeded, next: Some(ConnectStep::ConfigureAddress) }
        } else {
            stop
        },
        ConnectStep::ConfigureAddress => StepDecision {
            report: if succeeded {
                StepReport::Succeeded
            } else {
                StepReport::Failed
            },
            next: Some(ConnectStep::Resolve),
        },
        ConnectStep::Resolve => if succeeded {
            StepDecision { report: StepReport::Silent, next: Some(ConnectStep::SendHandshake) }
        } else {
            stop
        },
        ConnectStep::SendHandshake => if succeeded {
            StepDecision { report: StepReport::Silent, next: Some(ConnectStep::AwaitHandshake) }
        } else {
            stop
        },
        ConnectStep::AwaitHandshake => if succeeded {
            StepDecision { report: StepReport::Succeeded, next: Some(ConnectStep::SetupRoutes) }
        } else {
            stop
        },
        ConnectStep::SetupRoutes => StepDecision {
            report: StepReport::Succeeded,
            next: Some(ConnectStep::Connected),
        },
        ConnectStep::Connected => StepDecision {
            report: StepReport::Silent,
            next: Some(ConnectStep::Connected),
        },
    }
}

/// Decides what follows `step`, whose outside work succeeded or not.
pub fn after_step(step: ConnectStep, succeeded: bool) -> (d: StepDecision)
    ensures
        d == decision(step, succeeded),
{
    let stop = StepDecision { report: StepReport::Failed, next: None };
    match step {
        ConnectStep::LoadDriver => if succeeded {
            StepDecision { report: StepReport::Succeeded, next: Some(ConnectStep::CreateAdapter) }
        } else {
            stop
        },
        ConnectStep::CreateAdapter => if succeeded {
            StepDecision { report: StepReport::Succeeded, next: Some(ConnectStep::ConfigureAddress) }
        } else {
            StepDecision { report: StepReport::Silent, next: Some(ConnectStep::OpenAdapter) }
        },
        ConnectStep::OpenAdapter => if succeeded {
            StepDecision { report: StepReport::Succeeded, next: Some(ConnectStep::ConfigureAddress) }
        } else {
            stop
        },
        ConnectStep::ConfigureAddress => StepDecision {
            report: if succeeded {
                StepReport::Succeeded
            } else {
                StepReport::Failed
            },
            next: Some(ConnectStep::Resolve),
        },
        ConnectStep::Resolve => if succeeded {
            StepDecision { report: StepReport::Silent, next: Some(ConnectStep::SendHandshake) }
        } else {
            stop
        },
        ConnectStep::SendHandshake => if succeeded {
            StepDecision { report: StepReport::Silent, next: Some(ConnectStep::AwaitHandshake) }
        } else {
            stop
        },
        ConnectStep::AwaitHandshake => if succeeded {
            StepDecision { report: StepReport::Succeeded, next: Some(ConnectStep::SetupRoutes) }
        } else {
            stop
        },
        ConnectStep::SetupRoutes => StepDecision {
            report: StepReport::Succeeded,
            next: Some(ConnectStep::Connected),
        },
        ConnectStep::Connected => StepDecision {
            report: StepReport::Silent,
            next: Some(ConnectStep::Connected),
        },
    }
}

/// A run of the procedure: the steps taken, each with whether its outside
/// work succeeded, starting with loading the driver, each step the one that
/// the decision after the step before names.
pub open spec fn valid_run(run: Seq<(ConnectStep, bool)>) -> bool {
    &&& run.len() > 0
    &&& run[0].0 == ConnectStep::LoadDriver
    &&& forall|i: int|
        0 <= i < run.len() - 1 ==> #[trigger] decision(run[i].0, run[i].1).next == Some(
            run[i + 1].0,
        )
}

/// The routes through the tunnel are set up only after the driver loaded,
/// an adapter was created or opened, its address was set (successfully or
/// not), the server's address was found, the handshake probe was sent and
/// the server answered it with a `Pong`, in that order.
pub proof fn law_routes_only_after_handshake(run: Seq<(ConnectStep, bool)>)
    requires
        valid_run(run),
        run.last().0 == ConnectStep::SetupRoutes,
    ensures
        run.len() >= 3,
        run[0] == (ConnectStep::LoadDriver, true),
        run[1] == (ConnectStep::CreateAdapter, true) || run[2] == (ConnectStep::OpenAdapter, true),
        run.len() >= 6,
        run[run.len() - 2] == (ConnectStep::AwaitHandshake, true),
        run[run.len() - 3] == (ConnectStep::SendHandshake, true),
        run[run.len() - 4] == (ConnectStep::Resolve, true),
        run[run.len() - 5].0 == ConnectStep::ConfigureAddress,
{
    let n = run.len() as int;
    assert(n >= 2);
    assert(decision(run[n - 3].0, run[n - 3].1).next == Some(run[n - 2].0));
    assert(decision(run[n - 4].0, run[n - 4].1).next == Some(run[n - 3].0));
    assert(decision(run[n - 5].0, run[n - 5].1).next == Some(run[n - 4].0));
    assert(decision(run[0].0, run[0].1).next == Some(run[1].0));
    assert(decision(run[n - 2].0, run[n - 2].1).next == Some(run[n - 1].0));
    assert(run[1].0 == ConnectStep::CreateAdapter);
    if run[1].1 == false {
        assert(n >= 3);
        assert(decision(run[1].0, run[1].1).next == Some(run[2].0));
        assert(decision(run[2].0, run[2].1).next == Some(run[3].0));
    } else {
        assert(n >= 3);
    }
}

/// No required step is ever passed by failing it: in any run, a step after
/// which the client goes on that is loading the driver, opening the adapter,
/// finding, reaching or hearing back from the server succeeded.
pub proof fn law_required_steps_succeeded(run: Seq<(ConnectStep, bool)>, i: int)
    requires
        valid_run(run),
        0 <= i < run.len() - 1,
        run[i].0 == ConnectStep::LoadDriver || run[i].0 == ConnectStep::OpenAdapter || run[i].0
            == ConnectStep::Resolve || run[i].0 == ConnectStep::SendHandshake || run[i].0
            == ConnectStep::AwaitHandshake,
    ensures
        run[i].1,
{
    assert(decision(run[i].0, run[i].1).next == Some(run[i + 1].0));
}

/// The report after a step tells the truth about its outside work: a step
/// that succeeded is never reported as failed, one that failed is never
/// reported as succeeded (route setup, whose commands' results the client
/// does not look at, is always marked done), and a step that succeeded never
/// stops the client.
pub proof fn law_reports_match_outcomes(step: ConnectStep, succeeded: bool)
    ensures
        succeeded ==> decision(step, succeeded).report != StepReport::Failed,
        succeeded ==> decision(step, succeeded).next is Some,
        !succeeded && step != ConnectStep::SetupRoutes ==> decision(step, succeeded).report
            != StepReport::Succeeded,
{
}

/// The client stops only after a failed required step: loading the driver,
/// opening the adapter, or finding, reaching or hearing back from the
/// server. A failed adapter creation or address setting never stops it.
pub proof fn law_stops_only_on_required_failure(step: ConnectStep, succeeded: bool)
    ensures
        decision(step, succeeded).next is None ==> !succeeded && (step == ConnectStep::LoadDriver
            || step == ConnectStep::OpenAdapter || step == ConnectStep::Resolve || step
            == ConnectStep::SendHandshake || step == ConnectStep::AwaitHandshake),
        decision(step, succeeded).next is None ==> decision(step, succeeded).report
            == StepReport::Failed,
{
}

/// Whether the address setting succeeded changes only the mark that the
/// client prints: either way it goes on to find the server.
pub proof fn law_address_failure_is_survived(succeeded: bool)
    ensures
        decision(ConnectStep::ConfigureAddress, succeeded).next == Some(ConnectStep::Resolve),
        decision(ConnectStep::ConfigureAddress, succeeded).report == (if succeeded {
            StepReport::Succeeded
        } else {
            StepReport::Failed
        }),
{
}

} // verus!

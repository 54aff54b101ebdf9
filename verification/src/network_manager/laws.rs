//! Laws of the reconnection orchestrator, stated over the capability-call
//! history of one run and proved from the run shapes alone.

use vstd::prelude::*;

use crate::network_manager::capability::CapEvent;
use crate::network_manager::orchestrator::run_empty_profile;
use crate::network_manager::orchestrator::run_disconnect_aborted;
use crate::network_manager::orchestrator::run_enum_failed;
use crate::network_manager::orchestrator::run_full;
use crate::network_manager::orchestrator::run_no_interface;
use crate::network_manager::orchestrator::run_open_failed;
use crate::network_manager::orchestrator::run_query_failed;
use crate::network_manager::orchestrator::valid_run;
use crate::network_manager::orchestrator::DisconnectPolicy;

verus! {

/// How often each kind of capability call occurs in one run, with
/// acquisitions counted only when they succeeded.
pub ghost struct RunCounts {
    /// Session opens that succeeded.
    pub opens_ok: nat,
    /// Session closes.
    pub closes: nat,
    /// Enumeration calls, with either outcome.
    pub enum_calls: nat,
    /// Enumeration calls that returned a list.
    pub enums_ok: nat,
    /// Interface-list releases.
    pub list_frees: nat,
    /// Profile queries, with either outcome.
    pub query_calls: nat,
    /// Profile queries that returned a buffer.
    pub queries_ok: nat,
    /// Query-buffer releases.
    pub buffer_frees: nat,
    /// Disconnect requests.
    pub disconnects: nat,
    /// Connect requests.
    pub connects: nat,
}

/// The counts contributed by a single event.
pub open spec fn event_counts(e: CapEvent) -> RunCounts {
    RunCounts {
        opens_ok: if e == (CapEvent::SessionOpened { ok: true }) { 1nat } else { 0nat },
        closes: if e is SessionClosed { 1nat } else { 0nat },
        enum_calls: if e is InterfacesEnumerated { 1nat } else { 0nat },
        enums_ok: if (e matches CapEvent::InterfacesEnumerated { result: Some(_) }) {
            1nat
        } else {
            0nat
        },
        list_frees: if e is ListFreed { 1nat } else { 0nat },
        query_calls: if e is ProfileQueried { 1nat } else { 0nat },
        queries_ok: if (e matches CapEvent::ProfileQueried { result: Some(_), .. }) {
            1nat
        } else {
            0nat
        },
        buffer_frees: if e is BufferFreed { 1nat } else { 0nat },
        disconnects: if e is DisconnectIssued { 1nat } else { 0nat },
        connects: if e is ConnectIssued { 1nat } else { 0nat },
    }
}

/// Field-wise sum of two counts.
pub open spec fn add_counts(a: RunCounts, b: RunCounts) -> RunCounts {
    RunCounts {
        opens_ok: a.opens_ok + b.opens_ok,
        closes: a.closes + b.closes,
        enum_calls: a.enum_calls + b.enum_calls,
        enums_ok: a.enums_ok + b.enums_ok,
        list_frees: a.list_frees + b.list_frees,
        query_calls: a.query_calls + b.query_calls,
        queries_ok: a.queries_ok + b.queries_ok,
        buffer_frees: a.buffer_frees + b.buffer_frees,
        disconnects: a.disconnects + b.disconnects,
        connects: a.connects + b.connects,
    }
}

/// All-zero counts.
pub open spec fn zero_counts() -> RunCounts {
    RunCounts {
        opens_ok: 0nat,
        closes: 0nat,
        enum_calls: 0nat,
        enums_ok: 0nat,
        list_frees: 0nat,
        query_calls: 0nat,
        queries_ok: 0nat,
        buffer_frees: 0nat,
        disconnects: 0nat,
        connects: 0nat,
    }
}

/// The counts of a whole run.
pub open spec fn run_counts(run: Seq<CapEvent>) -> RunCounts
    decreases run.len(),
{
    if run.len() == 0 {
        zero_counts()
    } else {
        add_counts(run_counts(run.drop_last()), event_counts(run.last()))
    }
}

/// Appending one event adds exactly that event's counts.
pub proof fn lemma_run_counts_push(s: Seq<CapEvent>, e: CapEvent)
    ensures
        run_counts(s.push(e)) == add_counts(run_counts(s), event_counts(e)),
{
    assert(s.push(e).drop_last() =~= s);
    assert(s.push(e).last() == e);
}

/// Computes the counts of one run, element by element, for runs of up to
/// eight events.
proof fn lemma_counts_by_elements(run: Seq<CapEvent>)
    requires
        run.len() <= 8,
    ensures
        run.len() == 1 ==> run_counts(run) == add_counts(
            zero_counts(),
            event_counts(run[0]),
        ),
        run.len() == 2 ==> run_counts(run) == add_counts(
            add_counts(zero_counts(), event_counts(run[0])),
            event_counts(run[1]),
        ),
        run.len() == 3 ==> run_counts(run) == add_counts(
            add_counts(
                add_counts(zero_counts(), event_counts(run[0])),
                event_counts(run[1]),
            ),
            event_counts(run[2]),
        ),
        run.len() == 4 ==> run_counts(run) == add_counts(
            add_counts(
                add_counts(
                    add_counts(zero_counts(), event_counts(run[0])),
                    event_counts(run[1]),
                ),
                event_counts(run[2]),
            ),
            event_counts(run[3]),
        ),
        run.len() == 5 ==> run_counts(run) == add_counts(
            add_counts(
                add_counts(
                    add_counts(
                        add_counts(zero_counts(), event_counts(run[0])),
                        event_counts(run[1]),
                    ),
                    event_counts(run[2]),
                ),
                event_counts(run[3]),
            ),
            event_counts(run[4]),
        ),
        run.len() == 6 ==> run_counts(run) == add_counts(
            add_counts(
                add_counts(
                    add_counts(
                        add_counts(
                            add_counts(zero_counts(), event_counts(run[0])),
                            event_counts(run[1]),
                        ),
                        event_counts(run[2]),
                    ),
                    event_counts(run[3]),
                ),
                event_counts(run[4]),
            ),
            event_counts(run[5]),
        ),
        run.len() == 7 ==> run_counts(run) == add_counts(
            add_counts(
                add_counts(
                    add_counts(
                        add_counts(
                            add_counts(
                                add_counts(zero_counts(), event_counts(run[0])),
                                event_counts(run[1]),
                            ),
                            event_counts(run[2]),
                        ),
                        event_counts(run[3]),
                    ),
                    event_counts(run[4]),
                ),
                event_counts(run[5]),
            ),
            event_counts(run[6]),
        ),
        run.len() == 8 ==> run_counts(run) == add_counts(
            add_counts(
                add_counts(
                    add_counts(
                        add_counts(
                            add_counts(
                                add_counts(
                                    add_counts(zero_counts(), event_counts(run[0])),
                                    event_counts(run[1]),
                                ),
                                event_counts(run[2]),
                            ),
                            event_counts(run[3]),
                        ),
                        event_counts(run[4]),
                    ),
                    event_counts(run[5]),
                ),
                event_counts(run[6]),
            ),
            event_counts(run[7]),
        ),
    decreases run.len(),
{
    if run.len() > 0 {
        let s = run.drop_last();
        lemma_counts_by_elements(s);
        lemma_run_counts_push(s, run.last());
        assert(s.push(run.last()) =~= run);
    }
}

/// Each run shape has fixed counts: every resource that was acquired in it
/// is released exactly once, and no other call occurs.
pub proof fn lemma_shape_counts(run: Seq<CapEvent>, outcome: bool, policy: DisconnectPolicy)
    requires
        valid_run(run, outcome, policy),
    ensures
        run_counts(run).closes == run_counts(run).opens_ok,
        run_counts(run).list_frees == run_counts(run).enums_ok,
        run_counts(run).buffer_frees == run_counts(run).queries_ok,
        run_open_failed(run, outcome) ==> run_counts(run) == (RunCounts {
            opens_ok: 0nat,
            closes: 0nat,
            enum_calls: 0nat,
            enums_ok: 0nat,
            list_frees: 0nat,
            query_calls: 0nat,
            queries_ok: 0nat,
            buffer_frees: 0nat,
            disconnects: 0nat,
            connects: 0nat,
        }),
        run_enum_failed(run, outcome) ==> run_counts(run) == (RunCounts {
            opens_ok: 1nat,
            closes: 1nat,
            enum_calls: 1nat,
            enums_ok: 0nat,
            list_frees: 0nat,
            query_calls: 0nat,
            queries_ok: 0nat,
            buffer_frees: 0nat,
            disconnects: 0nat,
            connects: 0nat,
        }),
        run_no_interface(run, outcome) ==> run_counts(run) == (RunCounts {
            opens_ok: 1nat,
            closes: 1nat,
            enum_calls: 1nat,
            enums_ok: 1nat,
            list_frees: 1nat,
            query_calls: 0nat,
            queries_ok: 0nat,
            buffer_frees: 0nat,
            disconnects: 0nat,
            connects: 0nat,
        }),
        run_query_failed(run, outcome) ==> run_counts(run) == (RunCounts {
            opens_ok: 1nat,
            closes: 1nat,
            enum_calls: 1nat,
            enums_ok: 1nat,
            list_frees: 1nat,
            query_calls: 1nat,
            queries_ok: 0nat,
            buffer_frees: 0nat,
            disconnects: 0nat,
            connects: 0nat,
        }),
        run_empty_profile(run, outcome) ==> run_counts(run) == (RunCounts {
            opens_ok: 1nat,
            closes: 1nat,
            enum_calls: 1nat,
            enums_ok: 1nat,
            list_frees: 1nat,
            query_calls: 1nat,
            queries_ok: 1nat,
            buffer_frees: 1nat,
            disconnects: 0nat,
            connects: 0nat,
        }),
        run_disconnect_aborted(run, outcome) ==> run_counts(run) == (RunCounts {
            opens_ok: 1nat,
            closes: 1nat,
            enum_calls: 1nat,
            enums_ok: 1nat,
            list_frees: 1nat,
            query_calls: 1nat,
            queries_ok: 1nat,
            buffer_frees: 1nat,
            disconnects: 1nat,
            connects: 0nat,
        }),
        run_full(run, outcome) ==> run_counts(run) == (RunCounts {
            opens_ok: 1nat,
            closes: 1nat,
            enum_calls: 1nat,
            enums_ok: 1nat,
            list_frees: 1nat,
            query_calls: 1nat,
            queries_ok: 1nat,
            buffer_frees: 1nat,
            disconnects: 1nat,
            connects: 1nat,
        }),
{
    lemma_counts_by_elements(run);
}

/// Resource-leak law: across any orchestration run, each resource type is
/// released exactly as often as it was successfully acquired — sessions
/// closed per successful open, lists freed per successful enumeration,
/// buffers freed per successful query.
pub proof fn lemma_no_leaks(run: Seq<CapEvent>, outcome: bool, policy: DisconnectPolicy)
    requires
        valid_run(run, outcome, policy),
    ensures
        run_counts(run).closes == run_counts(run).opens_ok,
        run_counts(run).list_frees == run_counts(run).enums_ok,
        run_counts(run).buffer_frees == run_counts(run).queries_ok,
{
    lemma_shape_counts(run, outcome, policy);
}

/// If session-open fails, the attempt reports failure and issues no other
/// call: nothing is enumerated, queried, disconnected, connected or closed.
pub proof fn lemma_open_failure_aborts(run: Seq<CapEvent>, outcome: bool, policy: DisconnectPolicy)
    requires
        valid_run(run, outcome, policy),
        run.len() >= 1,
        run[0] == (CapEvent::SessionOpened { ok: false }),
    ensures
        outcome == false,
        run.len() == 1,
        run_counts(run).enum_calls == 0,
        run_counts(run).query_calls == 0,
        run_counts(run).disconnects == 0,
        run_counts(run).connects == 0,
        run_counts(run).closes == 0,
{
    lemma_shape_counts(run, outcome, policy);
}

/// If enumeration returns an empty interface list, the attempt reports
/// failure, the session is closed exactly once, and neither disconnect nor
/// connect is ever issued.
pub proof fn lemma_empty_enumeration(run: Seq<CapEvent>, outcome: bool, policy: DisconnectPolicy)
    requires
        valid_run(run, outcome, policy),
        run.len() >= 2,
        (run[1] matches CapEvent::InterfacesEnumerated { result: Some(ids) } && ids.len() == 0),
    ensures
        outcome == false,
        run_counts(run).closes == 1,
        run_counts(run).disconnects == 0,
        run_counts(run).connects == 0,
{
    lemma_shape_counts(run, outcome, policy);
}

/// If the active-profile query fails outright, the attempt reports failure,
/// no buffer was allocated so none is released, connect is never issued,
/// and the session is closed exactly once.
pub proof fn lemma_query_failure_aborts(run: Seq<CapEvent>, outcome: bool, policy: DisconnectPolicy, iface: u128)
    requires
        valid_run(run, outcome, policy),
        run.len() >= 4,
        run[3] == (CapEvent::ProfileQueried { iface, result: None }),
    ensures
        outcome == false,
        run_counts(run).queries_ok == 0,
        run_counts(run).buffer_frees == 0,
        run_counts(run).connects == 0,
        run_counts(run).closes == 1,
{
    lemma_shape_counts(run, outcome, policy);
}

/// If the query returns a buffer whose profile name is empty after
/// trimming, the attempt reports failure, the buffer is released exactly
/// once, connect is never issued, and the session is closed exactly once.
pub proof fn lemma_empty_profile_aborts(run: Seq<CapEvent>, outcome: bool, policy: DisconnectPolicy, iface: u128, raw: Seq<u16>)
    requires
        valid_run(run, outcome, policy),
        run.len() >= 4,
        run[3] == (CapEvent::ProfileQueried { iface, result: Some(raw) }),
        crate::network_manager::orchestrator::trim_spec(raw).len() == 0,
    ensures
        outcome == false,
        run_counts(run).buffer_frees == 1,
        run_counts(run).connects == 0,
        run_counts(run).closes == 1,
{
    lemma_shape_counts(run, outcome, policy);
}

/// Disconnect failure is non-fatal: if the disconnect step failed but the
/// connect step succeeded, the attempt still reports success.
pub proof fn lemma_disconnect_nonfatal(run: Seq<CapEvent>, outcome: bool, policy: DisconnectPolicy, iface: u128)
    requires
        valid_run(run, outcome, policy),
        run.len() >= 7,
        run[5] == (CapEvent::DisconnectIssued { iface, ok: false }),
        (run[6] matches CapEvent::ConnectIssued { ok: true, .. }),
    ensures
        outcome == true,
{
}

/// If the connect step fails, the attempt reports failure and the session
/// is still closed exactly once.
pub proof fn lemma_connect_failure(run: Seq<CapEvent>, outcome: bool, policy: DisconnectPolicy)
    requires
        valid_run(run, outcome, policy),
        run.len() >= 7,
        (run[6] matches CapEvent::ConnectIssued { ok: false, .. }),
    ensures
        outcome == false,
        run_counts(run).closes == 1,
{
    lemma_shape_counts(run, outcome, policy);
}

} // verus!

//! The reconnection orchestrator: a strict, fail-fast pipeline of capability
//! calls that tears down and re-establishes the active wireless connection.
//!
//! The orchestrator's contract pins down, for every possible sequence of
//! capability outcomes, exactly which calls it appends to the capability
//! history: one of the run shapes below, matching its returned outcome.

use vstd::prelude::*;

use crate::network_manager::capability::CapEvent;
use crate::network_manager::capability::Profile;
use crate::network_manager::capability::WlanCapability;

verus! {

/// What a failed disconnect step does to the rest of the pipeline.
///
/// The disconnect step may fail without necessarily preventing a subsequent
/// connect from succeeding, so tolerating the failure is a deliberate policy
/// choice, not a hard-coded default; a caller may instead abort.
#[derive(Clone, Copy, Debug, PartialEq, Eq, Structural)]
pub enum DisconnectPolicy {
    /// A failed disconnect is tolerated: the pipeline proceeds to connect.
    Tolerate,
    /// A failed disconnect aborts the pipeline before connect.
    Abort,
}

/// `s` with every trailing zero code unit removed.
pub open spec fn trim_spec(s: Seq<u16>) -> Seq<u16>
    decreases s.len(),
{
    if s.len() > 0 && s.last() == 0 {
        trim_spec(s.drop_last())
    } else {
        s
    }
}

/// Removes the trailing zero padding from a raw profile name.
pub fn trim_trailing_padding(v: &Vec<u16>) -> (r: Vec<u16>)
    ensures
        r@ == trim_spec(v@),
{
    let mut j: usize = v.len();
    proof {
        assert(v@.take(j as int) =~= v@);
    }
    while j > 0 && v[j - 1] == 0
        invariant
            j <= v.len(),
            trim_spec(v@) == trim_spec(v@.take(j as int)),
        decreases j,
    {
        proof {
            assert(v@.take(j as int).drop_last() =~= v@.take(j as int - 1));
            assert(v@.take(j as int).last() == v@[j as int - 1]);
        }
        j = j - 1;
    }
    proof {
        if j == 0 {
            assert(v@.take(0) =~= Seq::<u16>::empty());
        }
        assert(trim_spec(v@.take(j as int)) == v@.take(j as int));
    }
    let mut r: Vec<u16> = Vec::new();
    let mut i: usize = 0;
    while i < j
        invariant
            i <= j,
            j <= v.len(),
            r@ == v@.take(i as int),
        decreases j - i,
    {
        r.push(v[i]);
        proof {
            assert(r@ =~= v@.take(i as int + 1));
        }
        i = i + 1;
    }
    proof {
        assert(r@ == v@.take(j as int));
    }
    r
}

/// Run shape: session-open failed; nothing was acquired, nothing is
/// released, and the attempt reports failure.
pub open spec fn run_open_failed(run: Seq<CapEvent>, outcome: bool) -> bool {
    &&& run.len() == 1
    &&& run[0] == (CapEvent::SessionOpened { ok: false })
    &&& outcome == false
}

/// Run shape: enumeration failed; the session is closed and the attempt
/// reports failure.
pub open spec fn run_enum_failed(run: Seq<CapEvent>, outcome: bool) -> bool {
    &&& run.len() == 3
    &&& run[0] == (CapEvent::SessionOpened { ok: true })
    &&& run[1] == (CapEvent::InterfacesEnumerated { result: None })
    &&& run[2] == CapEvent::SessionClosed
    &&& outcome == false
}

/// Run shape: enumeration returned no interface; the list and the session
/// are released and the attempt reports failure.
pub open spec fn run_no_interface(run: Seq<CapEvent>, outcome: bool) -> bool {
    &&& run.len() == 4
    &&& run[0] == (CapEvent::SessionOpened { ok: true })
    &&& (run[1] matches CapEvent::InterfacesEnumerated { result: Some(ids) } && ids.len() == 0)
    &&& run[2] == CapEvent::ListFreed
    &&& run[3] == CapEvent::SessionClosed
    &&& outcome == false
}

/// Run shape: the active-profile query failed on the first enumerated
/// interface; no buffer was allocated, the session is closed, and the
/// attempt reports failure.
pub open spec fn run_query_failed(run: Seq<CapEvent>, outcome: bool) -> bool {
    &&& run.len() == 5
    &&& run[0] == (CapEvent::SessionOpened { ok: true })
    &&& (run[1] matches CapEvent::InterfacesEnumerated { result: Some(ids) }
        && ids.len() > 0
        && run[3] == (CapEvent::ProfileQueried { iface: ids[0], result: None }))
    &&& run[2] == CapEvent::ListFreed
    &&& run[4] == CapEvent::SessionClosed
    &&& outcome == false
}

/// Run shape: the query returned a buffer whose profile name is empty after
/// trimming; the buffer and the session are released and the attempt
/// reports failure.
pub open spec fn run_empty_profile(run: Seq<CapEvent>, outcome: bool) -> bool {
    &&& run.len() == 6
    &&& run[0] == (CapEvent::SessionOpened { ok: true })
    &&& (run[1] matches CapEvent::InterfacesEnumerated { result: Some(ids) }
        && ids.len() > 0
        && (run[3] matches CapEvent::ProfileQueried { iface, result: Some(raw) }
            && iface == ids[0]
            && trim_spec(raw).len() == 0))
    &&& run[2] == CapEvent::ListFreed
    &&& run[4] == CapEvent::BufferFreed
    &&& run[5] == CapEvent::SessionClosed
    &&& outcome == false
}

/// Run shape: the disconnect step failed under the aborting policy; the
/// session is closed, connect is never issued, and the attempt reports
/// failure.
pub open spec fn run_disconnect_aborted(run: Seq<CapEvent>, outcome: bool) -> bool {
    &&& run.len() == 7
    &&& run[0] == (CapEvent::SessionOpened { ok: true })
    &&& (run[1] matches CapEvent::InterfacesEnumerated { result: Some(ids) }
        && ids.len() > 0
        && (run[3] matches CapEvent::ProfileQueried { iface, result: Some(raw) }
            && iface == ids[0]
            && trim_spec(raw).len() > 0)
        && run[5] == (CapEvent::DisconnectIssued { iface: ids[0], ok: false }))
    &&& run[2] == CapEvent::ListFreed
    &&& run[4] == CapEvent::BufferFreed
    &&& run[6] == CapEvent::SessionClosed
    &&& outcome == false
}

/// Run shape: the full pipeline ran. The first enumerated interface was
/// disconnected (a failure tolerated only under the tolerant policy) and
/// reconnected using the trimmed profile name; the attempt reports the
/// connect outcome, and the list, the buffer and the session were each
/// released once.
pub open spec fn run_full(run: Seq<CapEvent>, outcome: bool) -> bool {
    &&& run.len() == 8
    &&& run[0] == (CapEvent::SessionOpened { ok: true })
    &&& (run[1] matches CapEvent::InterfacesEnumerated { result: Some(ids) }
        && ids.len() > 0
        && (run[3] matches CapEvent::ProfileQueried { iface, result: Some(raw) }
            && iface == ids[0]
            && trim_spec(raw).len() > 0
            && (run[5] matches CapEvent::DisconnectIssued { iface: di, ok: _ } && di == ids[0])
            && run[6] == (CapEvent::ConnectIssued {
                iface: ids[0],
                profile: trim_spec(raw),
                ok: outcome,
            })))
    &&& run[2] == CapEvent::ListFreed
    &&& run[4] == CapEvent::BufferFreed
    &&& run[7] == CapEvent::SessionClosed
}

/// Every run of the orchestrator appends one of these call sequences to the
/// capability history and reports the matching outcome; the aborted
/// disconnect shape can occur only under the aborting policy.
pub open spec fn valid_run(run: Seq<CapEvent>, outcome: bool, policy: DisconnectPolicy) -> bool {
    ||| run_open_failed(run, outcome)
    ||| run_enum_failed(run, outcome)
    ||| run_no_interface(run, outcome)
    ||| run_query_failed(run, outcome)
    ||| run_empty_profile(run, outcome)
    ||| (policy is Abort && run_disconnect_aborted(run, outcome))
    ||| (run_full(run, outcome) && (policy is Tolerate || (run[5] matches
        CapEvent::DisconnectIssued { ok: true, .. })))
}

/// Attempts one reconnection of the active wireless interface, entirely
/// through the capability seam.
///
/// Ordered steps: open a session; enumerate interfaces; select the first
/// interface (the design assumes at most one relevant wireless adapter) and
/// release the list; query the active profile and release its buffer;
/// disconnect (its failure handled per `policy`); connect using the saved
/// profile; close the session. Steps before the disconnect are fail-fast;
/// whatever was acquired is released on every path.
pub fn attempt_reconnect<C: WlanCapability>(cap: &mut C, policy: DisconnectPolicy) -> (outcome:
    bool)
    ensures
        old(cap).history().len() <= final(cap).history().len(),
        final(cap).history().take(old(cap).history().len() as int) == old(cap).history(),
        valid_run(
            final(cap).history().skip(old(cap).history().len() as int),
            outcome,
            policy,
        ),
        old(cap).frame(final(cap)),
{
    let ghost h0 = cap.history();
    let ghost c0 = *cap;
    let session_opt = cap.open_session();
    let ghost s1 = *cap;
    let session = match session_opt {
        Some(s) => s,
        None => {
            proof {
                let run = cap.history().skip(h0.len() as int);
                assert(run =~= seq![CapEvent::SessionOpened { ok: false }]);
                assert(cap.history().take(h0.len() as int) =~= h0);
            }
            return false;
        },
    };
    let list_opt = cap.enum_interfaces(&session);
    let ghost s2 = *cap;
    proof {
        C::frame_trans(&c0, &s1, &s2);
    }
    let list = match list_opt {
        Some(l) => l,
        None => {
            cap.close_session(session);
            proof {
                let s3 = *cap;
                C::frame_trans(&c0, &s2, &s3);
                let run = cap.history().skip(h0.len() as int);
                assert(run =~= seq![
                    CapEvent::SessionOpened { ok: true },
                    CapEvent::InterfacesEnumerated { result: None },
                    CapEvent::SessionClosed,
                ]);
                assert(cap.history().take(h0.len() as int) =~= h0);
            }
            return false;
        },
    };
    let ghost ids = list.ids@;
    let iface_opt: Option<u128> = if list.ids.len() > 0 {
        Some(list.ids[0])
    } else {
        None
    };
    cap.free_list(list);
    let ghost s3 = *cap;
    proof {
        C::frame_trans(&c0, &s2, &s3);
    }
    let iface = match iface_opt {
        Some(i) => i,
        None => {
            cap.close_session(session);
            proof {
                let s4 = *cap;
                C::frame_trans(&c0, &s3, &s4);
                let run = cap.history().skip(h0.len() as int);
                assert(run =~= seq![
                    CapEvent::SessionOpened { ok: true },
                    CapEvent::InterfacesEnumerated { result: Some(ids) },
                    CapEvent::ListFreed,
                    CapEvent::SessionClosed,
                ]);
                assert(run_no_interface(run, false));
                assert(cap.history().take(h0.len() as int) =~= h0);
            }
            return false;
        },
    };
    let buf_opt = cap.query_profile(&session, iface);
    let ghost s4 = *cap;
    proof {
        C::frame_trans(&c0, &s3, &s4);
    }
    let buf = match buf_opt {
        Some(b) => b,
        None => {
            cap.close_session(session);
            proof {
                let s5 = *cap;
                C::frame_trans(&c0, &s4, &s5);
                let run = cap.history().skip(h0.len() as int);
                assert(run =~= seq![
                    CapEvent::SessionOpened { ok: true },
                    CapEvent::InterfacesEnumerated { result: Some(ids) },
                    CapEvent::ListFreed,
                    CapEvent::ProfileQueried { iface: ids[0], result: None },
                    CapEvent::SessionClosed,
                ]);
                assert(run_query_failed(run, false));
                assert(cap.history().take(h0.len() as int) =~= h0);
            }
            return false;
        },
    };
    let ghost raw = buf.raw@;
    let name = trim_trailing_padding(&buf.raw);
    cap.free_buffer(buf);
    let ghost s5 = *cap;
    proof {
        C::frame_trans(&c0, &s4, &s5);
    }
    if name.len() == 0 {
        cap.close_session(session);
        proof {
            let s6 = *cap;
            C::frame_trans(&c0, &s5, &s6);
            let run = cap.history().skip(h0.len() as int);
            assert(run =~= seq![
                CapEvent::SessionOpened { ok: true },
                CapEvent::InterfacesEnumerated { result: Some(ids) },
                CapEvent::ListFreed,
                CapEvent::ProfileQueried { iface: ids[0], result: Some(raw) },
                CapEvent::BufferFreed,
                CapEvent::SessionClosed,
            ]);
            assert(run_empty_profile(run, false));
            assert(cap.history().take(h0.len() as int) =~= h0);
        }
        return false;
    }
    let profile = Profile { name };
    let disconnect_ok = cap.disconnect(&session, iface);
    let ghost s6 = *cap;
    proof {
        C::frame_trans(&c0, &s5, &s6);
    }
    if !disconnect_ok && policy == DisconnectPolicy::Abort {
        cap.close_session(session);
        proof {
            let s7 = *cap;
            C::frame_trans(&c0, &s6, &s7);
            let run = cap.history().skip(h0.len() as int);
            assert(run =~= seq![
                CapEvent::SessionOpened { ok: true },
                CapEvent::InterfacesEnumerated { result: Some(ids) },
                CapEvent::ListFreed,
                CapEvent::ProfileQueried { iface: ids[0], result: Some(raw) },
                CapEvent::BufferFreed,
                CapEvent::DisconnectIssued { iface: ids[0], ok: false },
                CapEvent::SessionClosed,
            ]);
            assert(run_disconnect_aborted(run, false));
            assert(cap.history().take(h0.len() as int) =~= h0);
        }
        return false;
    }
    let connect_ok = cap.connect(&session, iface, &profile);
    let ghost s7 = *cap;
    proof {
        C::frame_trans(&c0, &s6, &s7);
    }
    cap.close_session(session);
    proof {
        let s8 = *cap;
        C::frame_trans(&c0, &s7, &s8);
        let run = cap.history().skip(h0.len() as int);
        assert(run =~= seq![
            CapEvent::SessionOpened { ok: true },
            CapEvent::InterfacesEnumerated { result: Some(ids) },
            CapEvent::ListFreed,
            CapEvent::ProfileQueried { iface: ids[0], result: Some(raw) },
            CapEvent::BufferFreed,
            CapEvent::DisconnectIssued { iface: ids[0], ok: disconnect_ok },
            CapEvent::ConnectIssued { iface: ids[0], profile: trim_spec(raw), ok: connect_ok },
            CapEvent::SessionClosed,
        ]);
        assert(run_full(run, connect_ok));
        assert(cap.history().take(h0.len() as int) =~= h0);
    }
    connect_ok
}

} // verus!

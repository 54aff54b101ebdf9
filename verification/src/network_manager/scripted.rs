//! A scripted capability binding: a substitutable implementation of the
//! capability seam that returns pre-chosen outcomes, for deterministic
//! testing of the orchestrator without real hardware.

use vstd::prelude::*;

use crate::network_manager::capability::CapEvent;
use crate::network_manager::capability::InterfaceList;
use crate::network_manager::capability::Profile;
use crate::network_manager::capability::ProfileBuffer;
use crate::network_manager::capability::Session;
use crate::network_manager::capability::WlanCapability;
use crate::network_manager::capability::enum_event;
use crate::network_manager::capability::query_event;

verus! {

/// Which capability operation was called, without its outcome; the scripted
/// binding records one of these per call, so a test can count and order the
/// calls it observed.
#[derive(Clone, Copy, Debug, PartialEq, Eq, Structural)]
pub enum CallKind {
    /// A session was requested.
    OpenSession,
    /// A session was closed.
    CloseSession,
    /// Interface enumeration was requested.
    EnumInterfaces,
    /// An interface list was released.
    FreeList,
    /// An active-profile query was issued.
    QueryProfile,
    /// A query buffer was released.
    FreeBuffer,
    /// A disconnect was requested.
    Disconnect,
    /// A connect was requested.
    Connect,
}

/// Whether one recorded event reports exactly the outcome that the given
/// script prescribes for its kind of call.
pub open spec fn event_matches_script(e: CapEvent, s: ScriptedWlan) -> bool {
    match e {
        CapEvent::SessionOpened { ok } => ok == s.open_ok,
        CapEvent::SessionClosed => true,
        CapEvent::InterfacesEnumerated { result } => result == match s.enum_outcome {
            Some(v) => Some(v@),
            None => None::<Seq<u128>>,
        },
        CapEvent::ListFreed => true,
        CapEvent::ProfileQueried { iface: _, result } => result == match s.query_outcome {
            Some(v) => Some(v@),
            None => None::<Seq<u16>>,
        },
        CapEvent::BufferFreed => true,
        CapEvent::DisconnectIssued { iface: _, ok } => ok == s.disconnect_ok,
        CapEvent::ConnectIssued { iface: _, profile: _, ok } => ok == s.connect_ok,
    }
}

/// Returns a copy of a vector of copyable values.
fn duplicate<T: Copy>(v: &Vec<T>) -> (r: Vec<T>)
    ensures
        r@ == v@,
{
    let mut r: Vec<T> = Vec::new();
    let mut i: usize = 0;
    proof {
        assert(v@.take(0) =~= Seq::<T>::empty());
    }
    while i < v.len()
        invariant
            i <= v.len(),
            r@ == v@.take(i as int),
        decreases v.len() - i,
    {
        r.push(v[i]);
        proof {
            assert(r@ =~= v@.take(i as int + 1));
        }
        i = i + 1;
    }
    proof {
        assert(v@.take(v.len() as int) =~= v@);
    }
    r
}

/// A capability binding that answers every call with a pre-chosen outcome
/// and records each call it receives.
pub struct ScriptedWlan {
    /// Whether `open_session` hands out a session.
    pub open_ok: bool,
    /// What `enum_interfaces` returns: `None` for failure, or the interface
    /// identifiers of the list it allocates.
    pub enum_outcome: Option<Vec<u128>>,
    /// What `query_profile` returns: `None` for failure, or the raw profile
    /// name of the buffer it allocates.
    pub query_outcome: Option<Vec<u16>>,
    /// Whether `disconnect` reports success.
    pub disconnect_ok: bool,
    /// Whether `connect` reports success.
    pub connect_ok: bool,
    /// Every call received so far, oldest first.
    pub calls: Vec<CallKind>,
    /// Every call received so far, with its outcome, as capability events.
    pub hist: Ghost<Seq<CapEvent>>,
}

impl ScriptedWlan {
    /// Creates a scripted binding with the given outcomes and no calls
    /// recorded yet.
    pub fn new(
        open_ok: bool,
        enum_outcome: Option<Vec<u128>>,
        query_outcome: Option<Vec<u16>>,
        disconnect_ok: bool,
        connect_ok: bool,
    ) -> (r: ScriptedWlan)
        ensures
            r.open_ok == open_ok,
            r.enum_outcome == enum_outcome,
            r.query_outcome == query_outcome,
            r.disconnect_ok == disconnect_ok,
            r.connect_ok == connect_ok,
            r.history() == Seq::<CapEvent>::empty(),
            r.calls@ == Seq::<CallKind>::empty(),
    {
        ScriptedWlan {
            open_ok,
            enum_outcome,
            query_outcome,
            disconnect_ok,
            connect_ok,
            calls: Vec::new(),
            hist: Ghost(Seq::empty()),
        }
    }
}

impl WlanCapability for ScriptedWlan {
    open spec fn history(&self) -> Seq<CapEvent> {
        self.hist@
    }

    open spec fn frame(&self, post: &Self) -> bool {
        &&& post.open_ok == self.open_ok
        &&& post.enum_outcome == self.enum_outcome
        &&& post.query_outcome == self.query_outcome
        &&& post.disconnect_ok == self.disconnect_ok
        &&& post.connect_ok == self.connect_ok
        &&& self.hist@.len() <= post.hist@.len()
        &&& post.hist@.take(self.hist@.len() as int) == self.hist@
        &&& forall|i: int|
            self.hist@.len() <= i < post.hist@.len() ==> event_matches_script(
                #[trigger] post.hist@[i],
                *self,
            )
    }

    proof fn frame_refl(&self) {
        assert(self.hist@.take(self.hist@.len() as int) =~= self.hist@);
    }

    proof fn frame_trans(a: &Self, b: &Self, c: &Self) {
        assert(c.hist@.take(a.hist@.len() as int) =~= a.hist@);
        assert forall|i: int|
            a.hist@.len() <= i < c.hist@.len() implies event_matches_script(
            #[trigger] c.hist@[i],
            *a,
        ) by {
            if i < b.hist@.len() {
                assert(c.hist@[i] == c.hist@.take(b.hist@.len() as int)[i]);
                assert(event_matches_script(b.hist@[i], *a));
            } else {
                assert(event_matches_script(c.hist@[i], *b));
            }
        }
    }

    fn open_session(&mut self) -> (r: Option<Session>)
        ensures
            r is Some <==> old(self).open_ok,
            final(self).calls@ == old(self).calls@.push(CallKind::OpenSession),
    {
        self.calls.push(CallKind::OpenSession);
        let ok = self.open_ok;
        self.hist = Ghost(self.hist@.push(CapEvent::SessionOpened { ok }));
        proof {
            assert(self.hist@.take(old(self).hist@.len() as int) =~= old(self).hist@);
        }
        if ok {
            Some(Session::token())
        } else {
            None
        }
    }

    fn close_session(&mut self, session: Session)
        ensures
            final(self).calls@ == old(self).calls@.push(CallKind::CloseSession),
    {
        let _ = session;
        self.calls.push(CallKind::CloseSession);
        self.hist = Ghost(self.hist@.push(CapEvent::SessionClosed));
        proof {
            assert(self.hist@.take(old(self).hist@.len() as int) =~= old(self).hist@);
        }
    }

    fn enum_interfaces(&mut self, session: &Session) -> (r: Option<InterfaceList>)
        ensures
            old(self).enum_outcome matches Some(ids) ==> (r matches Some(l) && l.ids@ == ids@),
            old(self).enum_outcome is None ==> r is None,
            final(self).calls@ == old(self).calls@.push(CallKind::EnumInterfaces),
    {
        self.calls.push(CallKind::EnumInterfaces);
        let r: Option<InterfaceList> = match &self.enum_outcome {
            Some(ids) => Some(InterfaceList { ids: duplicate(ids) }),
            None => None,
        };
        let ghost ev = enum_event(r);
        self.hist = Ghost(self.hist@.push(ev));
        proof {
            assert(self.hist@.take(old(self).hist@.len() as int) =~= old(self).hist@);
        }
        proof {
            assert(event_matches_script(ev, *old(self)));
        }
        r
    }

    fn free_list(&mut self, list: InterfaceList)
        ensures
            final(self).calls@ == old(self).calls@.push(CallKind::FreeList),
    {
        let _ = list;
        self.calls.push(CallKind::FreeList);
        self.hist = Ghost(self.hist@.push(CapEvent::ListFreed));
        proof {
            assert(self.hist@.take(old(self).hist@.len() as int) =~= old(self).hist@);
        }
    }

    fn query_profile(&mut self, session: &Session, iface: u128) -> (r: Option<ProfileBuffer>)
        ensures
            old(self).query_outcome matches Some(raw) ==> (r matches Some(b) && b.raw@ == raw@),
            old(self).query_outcome is None ==> r is None,
            final(self).calls@ == old(self).calls@.push(CallKind::QueryProfile),
    {
        self.calls.push(CallKind::QueryProfile);
        let r: Option<ProfileBuffer> = match &self.query_outcome {
            Some(raw) => Some(ProfileBuffer { raw: duplicate(raw) }),
            None => None,
        };
        let ghost ev = query_event(iface, r);
        self.hist = Ghost(self.hist@.push(ev));
        proof {
            assert(self.hist@.take(old(self).hist@.len() as int) =~= old(self).hist@);
        }
        proof {
            assert(event_matches_script(ev, *old(self)));
        }
        r
    }

    fn free_buffer(&mut self, buffer: ProfileBuffer)
        ensures
            final(self).calls@ == old(self).calls@.push(CallKind::FreeBuffer),
    {
        let _ = buffer;
        self.calls.push(CallKind::FreeBuffer);
        self.hist = Ghost(self.hist@.push(CapEvent::BufferFreed));
        proof {
            assert(self.hist@.take(old(self).hist@.len() as int) =~= old(self).hist@);
        }
    }

    fn disconnect(&mut self, session: &Session, iface: u128) -> (r: bool)
        ensures
            r == old(self).disconnect_ok,
            final(self).calls@ == old(self).calls@.push(CallKind::Disconnect),
    {
        self.calls.push(CallKind::Disconnect);
        let ok = self.disconnect_ok;
        self.hist = Ghost(self.hist@.push(CapEvent::DisconnectIssued { iface, ok }));
        proof {
            assert(self.hist@.take(old(self).hist@.len() as int) =~= old(self).hist@);
        }
        ok
    }

    fn connect(&mut self, session: &Session, iface: u128, profile: &Profile) -> (r: bool)
        ensures
            r == old(self).connect_ok,
            final(self).calls@ == old(self).calls@.push(CallKind::Connect),
    {
        self.calls.push(CallKind::Connect);
        let ok = self.connect_ok;
        self.hist = Ghost(self.hist@.push(
            CapEvent::ConnectIssued { iface, profile: profile.name@, ok },
        ));
        proof {
            assert(self.hist@.take(old(self).hist@.len() as int) =~= old(self).hist@);
        }
        ok
    }
}

} // verus!

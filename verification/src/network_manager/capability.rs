//! The capability seam: the minimal primitive operations the reconnection
//! orchestrator needs, together with a ghost history of every call made
//! through the seam.
//!
//! Each operation appends one event to the history, recording the call and
//! its outcome. Contracts and laws about the orchestrator are stated over
//! that history: which calls were issued, in what order, and how often each
//! resource was acquired and released.

use vstd::prelude::*;

verus! {

/// An open session with the underlying network-management subsystem.
///
/// Owned exclusively by the orchestration run that opened it; it must be
/// passed back to [`WlanCapability::close_session`] exactly once.
pub struct Session {
    _private: (),
}

impl Session {
    /// Creates the token standing for a freshly opened session.
    ///
    /// Only a capability binding should call this, when its `open_session`
    /// succeeds.
    pub fn token() -> Session {
        Session { _private: () }
    }
}

/// A transient, subsystem-allocated list of adapter records.
///
/// Must be passed back to [`WlanCapability::free_list`] exactly once,
/// immediately after the needed interface identifier is extracted.
pub struct InterfaceList {
    /// The identifiers of the enumerated adapters, in subsystem order.
    pub ids: Vec<u128>,
}

/// A transient, subsystem-allocated buffer holding the active connection's
/// attributes.
///
/// Must be passed back to [`WlanCapability::free_buffer`] exactly once,
/// immediately after the profile name is extracted.
pub struct ProfileBuffer {
    /// The raw profile name, as UTF-16 code units, possibly padded with
    /// trailing zero units.
    pub raw: Vec<u16>,
}

/// A named connection profile: a non-empty name with its trailing padding
/// removed.
pub struct Profile {
    /// The profile name, as UTF-16 code units.
    pub name: Vec<u16>,
}

/// One call made through the capability seam, with its outcome.
#[allow(inconsistent_fields)]
pub ghost enum CapEvent {
    /// A session was requested; `ok` says whether one was opened.
    SessionOpened { ok: bool },
    /// An open session was closed.
    SessionClosed,
    /// Interface enumeration was requested; on success the event carries the
    /// enumerated identifiers, in order.
    InterfacesEnumerated { result: Option<Seq<u128>> },
    /// An interface list was released.
    ListFreed,
    /// The active connection of `iface` was queried; on success the event
    /// carries the raw profile name of the returned buffer.
    ProfileQueried { iface: u128, result: Option<Seq<u16>> },
    /// A query buffer was released.
    BufferFreed,
    /// Disconnection of `iface` was requested; `ok` says whether the
    /// subsystem accepted it.
    DisconnectIssued { iface: u128, ok: bool },
    /// Connection of `iface` using `profile` was requested; `ok` says
    /// whether the subsystem accepted it.
    ConnectIssued { iface: u128, profile: Seq<u16>, ok: bool },
}

/// The event recorded for one `enum_interfaces` call returning `r`.
pub open spec fn enum_event(r: Option<InterfaceList>) -> CapEvent {
    match r {
        Some(l) => CapEvent::InterfacesEnumerated { result: Some(l.ids@) },
        None => CapEvent::InterfacesEnumerated { result: None },
    }
}

/// The event recorded for one `query_profile` call on `iface` returning `r`.
pub open spec fn query_event(iface: u128, r: Option<ProfileBuffer>) -> CapEvent {
    match r {
        Some(b) => CapEvent::ProfileQueried { iface, result: Some(b.raw@) },
        None => CapEvent::ProfileQueried { iface, result: None },
    }
}

/// The capability seam: the primitive subsystem operations the orchestrator
/// is parameterized over.
///
/// One concrete binding translates these calls into the real OS subsystem;
/// a scripted binding substitutes for it in deterministic tests. Every
/// operation appends exactly one event to `history`, recording the call and
/// its outcome; nothing is promised about which outcome comes back.
pub trait WlanCapability: Sized {
    /// Every call made through this capability so far, oldest first.
    spec fn history(&self) -> Seq<CapEvent>;

    /// A binding-chosen relation that every single operation maintains, and
    /// that therefore holds across any sequence of operations.
    ///
    /// A binding uses it to state what its operations never change — a
    /// scripted binding, for example, states here that its scripted outcomes
    /// stay fixed and that every appended event reports them — so a caller
    /// of the orchestrator can pin down the run from what it knows of the
    /// binding. A binding with nothing to promise may use `true`.
    spec fn frame(&self, post: &Self) -> bool;

    /// The frame relation is reflexive.
    proof fn frame_refl(&self)
        ensures
            self.frame(self),
    ;

    /// The frame relation is transitive.
    proof fn frame_trans(a: &Self, b: &Self, c: &Self)
        requires
            a.frame(b),
            b.frame(c),
        ensures
            a.frame(c),
    ;

    /// Opens a session with the subsystem; `None` means the subsystem
    /// refused one.
    fn open_session(&mut self) -> (r: Option<Session>)
        ensures
            final(self).history() == old(self).history().push(
                CapEvent::SessionOpened { ok: r is Some },
            ),
            old(self).frame(final(self)),
    ;

    /// Closes an open session. Must be called exactly once per session.
    fn close_session(&mut self, session: Session)
        ensures
            final(self).history() == old(self).history().push(CapEvent::SessionClosed),
            old(self).frame(final(self)),
    ;

    /// Enumerates the adapters known to the subsystem.
    fn enum_interfaces(&mut self, session: &Session) -> (r: Option<InterfaceList>)
        ensures
            final(self).history() == old(self).history().push(enum_event(r)),
            old(self).frame(final(self)),
    ;

    /// Releases an interface list. Must be called exactly once per list.
    fn free_list(&mut self, list: InterfaceList)
        ensures
            final(self).history() == old(self).history().push(CapEvent::ListFreed),
            old(self).frame(final(self)),
    ;

    /// Queries the active connection attributes of one interface; on success
    /// the returned buffer holds the raw profile name.
    fn query_profile(&mut self, session: &Session, iface: u128) -> (r: Option<ProfileBuffer>)
        ensures
            final(self).history() == old(self).history().push(query_event(iface, r)),
            old(self).frame(final(self)),
    ;

    /// Releases a query buffer. Must be called exactly once per buffer.
    fn free_buffer(&mut self, buffer: ProfileBuffer)
        ensures
            final(self).history() == old(self).history().push(CapEvent::BufferFreed),
            old(self).frame(final(self)),
    ;

    /// Requests disconnection of one interface from its current network.
    fn disconnect(&mut self, session: &Session, iface: u128) -> (r: bool)
        ensures
            final(self).history() == old(self).history().push(
                CapEvent::DisconnectIssued { iface, ok: r },
            ),
            old(self).frame(final(self)),
    ;

    /// Requests connection of one interface using a named profile.
    fn connect(&mut self, session: &Session, iface: u128, profile: &Profile) -> (r: bool)
        ensures
            final(self).history() == old(self).history().push(
                CapEvent::ConnectIssued { iface, profile: profile.name@, ok: r },
            ),
            old(self).frame(final(self)),
    ;
}

} // verus!

//! The registry service: the thin dispatcher that maps inbound requests to
//! registry operations and status categories, owns the set of live sessions,
//! routes accepted `set` mutations to the live session of the identifier as
//! a pushed `Text` frame, and accepts inbound `Text` frames from a session
//! as implicit `set` calls.

use vstd::prelude::*;

use crate::errors::SyncError;
use crate::protocol::Frame;
use crate::registry::Auth;
use crate::registry::Registry;
use crate::registry::UnifiedClipboard;
use crate::registry::apply_set;
use crate::registry::auth_ok;
use crate::registry::set_allowed;
use crate::strmap::StrMap;
use crate::strmap::distinct_keys;
use crate::strmap::key_views;
use crate::text::wire_trim;
use crate::text::normalize_wire_text;

verus! {

/// The status category a response reports.
#[derive(Clone, Copy, Debug, PartialEq, Eq, Structural)]
pub enum Status {
    Success,
    NotFound,
    Forbidden,
}

/// Inserts or replaces the entry for `hostname`. Registration is trusted:
/// it always succeeds, and any prior entry is discarded without an
/// authorization check.
pub fn create_clipboard(
    registry: &mut Registry,
    new_clipboard: UnifiedClipboard,
    hostname: String,
) -> (r: Status)
    requires
        old(registry).wf(),
    ensures
        final(registry).wf(),
        final(registry)@ == old(registry)@.insert(hostname@, new_clipboard@),
        r == Status::Success,
{
    let UnifiedClipboard { contents, passphrase } = new_clipboard;
    registry.create(hostname, contents, passphrase);
    Status::Success
}

/// The contents of the entry for `hostname`, under the passphrase the
/// request carries.
pub fn get_clipboard(registry: &Registry, hostname: &String, auth: &Auth) -> (r: Result<
    String,
    SyncError,
>)
    requires
        registry.wf(),
    ensures
        r is Ok <==> registry@.dom().contains(hostname@) && auth_ok(
            registry@[hostname@],
            auth.passphrase@,
        ),
        r matches Ok(c) ==> c@ == registry@[hostname@].contents,
        r == Err::<String, SyncError>(SyncError::NotFound) <==> !registry@.dom().contains(
            hostname@,
        ),
        r == Err::<String, SyncError>(SyncError::Forbidden) <==> registry@.dom().contains(
            hostname@,
        ) && !auth_ok(registry@[hostname@], auth.passphrase@),
{
    registry.get(hostname, &auth.passphrase)
}

/// Replaces the contents of the entry for `hostname` with the request's
/// contents, under the passphrase the request carries; the stored passphrase
/// is kept.
pub fn set_clipboard(
    registry: &mut Registry,
    contents: UnifiedClipboard,
    hostname: &String,
) -> (r: Status)
    requires
        old(registry).wf(),
    ensures
        final(registry).wf(),
        final(registry)@ == apply_set(
            old(registry)@,
            hostname@,
            contents.contents@,
            contents.passphrase@,
        ),
        r == Status::Success <==> set_allowed(old(registry)@, hostname@, contents.passphrase@),
        r == Status::NotFound <==> !old(registry)@.dom().contains(hostname@),
        r == Status::Forbidden <==> old(registry)@.dom().contains(hostname@) && !auth_ok(
            old(registry)@[hostname@],
            contents.passphrase@,
        ),
{
    match registry.set(hostname, contents.contents, &contents.passphrase) {
        Ok(()) => Status::Success,
        Err(SyncError::Forbidden) => Status::Forbidden,
        Err(_) => Status::NotFound,
    }
}

/// Removes the entry for `hostname`, under the passphrase the request
/// carries.
pub fn kill_clipboard(registry: &mut Registry, auth: &Auth, hostname: &String) -> (r: Status)
    requires
        old(registry).wf(),
    ensures
        final(registry).wf(),
        r == Status::Success <==> set_allowed(old(registry)@, hostname@, auth.passphrase@),
        r == Status::Success ==> final(registry)@ == old(registry)@.remove(hostname@),
        r != Status::Success ==> final(registry)@ == old(registry)@,
        r == Status::NotFound <==> !old(registry)@.dom().contains(hostname@),
        r == Status::Forbidden <==> old(registry)@.dom().contains(hostname@) && !auth_ok(
            old(registry)@[hostname@],
            auth.passphrase@,
        ),
{
    match registry.kill(hostname, &auth.passphrase) {
        Ok(()) => Status::Success,
        Err(SyncError::Forbidden) => Status::Forbidden,
        Err(_) => Status::NotFound,
    }
}

/// All stored identifiers, for presence display: no contents, no
/// authorization.
pub fn get_clipboards(registry: &Registry) -> (r: Vec<String>)
    requires
        registry.wf(),
    ensures
        distinct_keys(key_views(r@)),
        forall|k: Seq<char>| registry@.dom().contains(k) <==> key_views(r@).contains(k),
{
    registry.list()
}

/// A frame to push to the live session of an identifier.
pub struct PushDirective {
    pub identifier: String,
    pub frame: Frame,
}

/// The registry together with the set of live sessions, keyed by
/// identifier: at most one session per identifier, a later registration
/// replacing (orphaning) the earlier one.
pub struct RegistryService {
    pub registry: Registry,
    pub sessions: StrMap<String>,
}

impl RegistryService {
    pub open spec fn wf(&self) -> bool {
        self.registry.wf() && self.sessions.wf()
    }

    /// The live sessions: each identifier's session passphrase.
    pub open spec fn sessions(&self) -> Map<Seq<char>, Seq<char>> {
        self.sessions@
    }

    /// A service with an empty registry and no sessions.
    pub fn new() -> (r: Self)
        ensures
            r.wf(),
            r.registry@ == Map::<Seq<char>, crate::registry::ClipView>::empty(),
            r.sessions() == Map::<Seq<char>, Seq<char>>::empty(),
    {
        RegistryService { registry: Registry::new(), sessions: StrMap::new() }
    }

    /// Records the live session for `identifier`: a second registration for
    /// the same identifier replaces the first. The registry is untouched.
    pub fn register_session(&mut self, identifier: String, passphrase: String)
        requires
            old(self).wf(),
        ensures
            final(self).wf(),
            final(self).sessions() == old(self).sessions().insert(identifier@, passphrase@),
            final(self).registry == old(self).registry,
    {
        self.sessions.insert(identifier, passphrase);
    }

    /// Forgets the live session for `identifier`, if any. The registry is
    /// untouched.
    pub fn drop_session(&mut self, identifier: &String)
        requires
            old(self).wf(),
        ensures
            final(self).wf(),
            final(self).sessions() == old(self).sessions().remove(identifier@),
            final(self).registry == old(self).registry,
    {
        self.sessions.remove(identifier);
    }

    /// Applies a `set` request and routes the accepted mutation to the live
    /// session of the identifier, if one is connected, as a pushed `Text`
    /// frame carrying the new contents.
    pub fn set_and_push(&mut self, contents: UnifiedClipboard, hostname: &String) -> (r: (
        Status,
        Option<PushDirective>,
    ))
        requires
            old(self).wf(),
        ensures
            final(self).wf(),
            final(self).sessions() == old(self).sessions(),
            final(self).registry@ == apply_set(
                old(self).registry@,
                hostname@,
                contents.contents@,
                contents.passphrase@,
            ),
            r.0 == Status::Success <==> set_allowed(
                old(self).registry@,
                hostname@,
                contents.passphrase@,
            ),
            r.0 == Status::NotFound <==> !old(self).registry@.dom().contains(hostname@),
            r.1 is Some <==> r.0 == Status::Success && old(self).sessions().dom().contains(
                hostname@,
            ),
            r.1 matches Some(p) ==> p.identifier@ == hostname@ && (p.frame matches Frame::Text(t)
                && t@ == contents.contents@),
    {
        let pushed = contents.contents.clone();
        let status = set_clipboard(&mut self.registry, contents, hostname);
        match status {
            Status::Success => {
                if self.sessions.contains(hostname) {
                    let directive = PushDirective {
                        identifier: hostname.clone(),
                        frame: Frame::Text(pushed),
                    };
                    (Status::Success, Some(directive))
                } else {
                    (Status::Success, None)
                }
            },
            _ => (status, None),
        }
    }

    /// Accepts one inbound `Text` frame from the live session of
    /// `identifier` as an implicit `set` call under the session's
    /// passphrase. The value is stripped of wire artifacts first; a value
    /// that is empty after stripping is discarded without a mutation. A
    /// frame for an identifier with no live session is refused as
    /// `NotFound`.
    pub fn accept_text(&mut self, identifier: &String, raw: &str) -> (r: Status)
        requires
            old(self).wf(),
        ensures
            final(self).wf(),
            final(self).sessions() == old(self).sessions(),
            !old(self).sessions().dom().contains(identifier@) ==> r == Status::NotFound
                && final(self).registry@ == old(self).registry@,
            old(self).sessions().dom().contains(identifier@) && wire_trim(raw@).len() == 0 ==> r
                == Status::Success && final(self).registry@ == old(self).registry@,
            old(self).sessions().dom().contains(identifier@) && wire_trim(raw@).len() > 0 ==> {
                &&& final(self).registry@ == apply_set(
                    old(self).registry@,
                    identifier@,
                    wire_trim(raw@),
                    old(self).sessions()[identifier@],
                )
                &&& (r == Status::Success <==> set_allowed(
                    old(self).registry@,
                    identifier@,
                    old(self).sessions()[identifier@],
                ))
                &&& (r == Status::NotFound <==> !old(self).registry@.dom().contains(identifier@))
            },
    {
        let passphrase = match self.sessions.get(identifier) {
            Some(p) => p.clone(),
            None => {
                return Status::NotFound;
            },
        };
        match normalize_wire_text(raw) {
            Some(value) => {
                let request = UnifiedClipboard { contents: value, passphrase };
                set_clipboard(&mut self.registry, request, identifier)
            },
            None => Status::Success,
        }
    }
}

} // verus!

//! The server-side registry: one clipboard entry per client identifier,
//! with passphrase-gated access.
//!
//! An entry whose passphrase is empty is open: any supplied passphrase is
//! accepted. Otherwise the supplied passphrase must equal the stored one
//! exactly. `create` is trusted registration and overwrites unconditionally;
//! `set` replaces only the contents and never the passphrase; `kill` removes
//! the entry.

use vstd::prelude::*;

use crate::errors::SyncError;
use crate::strmap::StrMap;
use crate::strmap::distinct_keys;
use crate::strmap::key_views;

verus! {

/// One stored clipboard: its text and the passphrase gating access to it.
#[derive(Clone, Debug)]
pub struct UnifiedClipboard {
    pub contents: String,
    pub passphrase: String,
}

/// The mathematical value of a clipboard entry.
pub ghost struct ClipView {
    pub contents: Seq<char>,
    pub passphrase: Seq<char>,
}

impl View for UnifiedClipboard {
    type V = ClipView;

    open spec fn view(&self) -> ClipView {
        ClipView { contents: self.contents@, passphrase: self.passphrase@ }
    }
}

/// The passphrase carried by a `get` or `kill` request.
#[derive(Clone, Debug)]
pub struct Auth {
    pub passphrase: String,
}

/// Whether a supplied passphrase opens an entry: an empty stored passphrase
/// means open access, a non-empty one must be matched exactly.
pub open spec fn auth_ok(entry: ClipView, supplied: Seq<char>) -> bool {
    entry.passphrase.len() == 0 || supplied == entry.passphrase
}

/// Whether a `set` or `kill` of `id` with passphrase `p` is allowed on
/// registry state `m`.
pub open spec fn set_allowed(m: Map<Seq<char>, ClipView>, id: Seq<char>, p: Seq<char>) -> bool {
    m.dom().contains(id) && auth_ok(m[id], p)
}

/// The registry state after a `set` of `id` to contents `c` with passphrase
/// `p`: the contents are replaced and the stored passphrase is kept; a
/// disallowed `set` changes nothing.
pub open spec fn apply_set(
    m: Map<Seq<char>, ClipView>,
    id: Seq<char>,
    c: Seq<char>,
    p: Seq<char>,
) -> Map<Seq<char>, ClipView> {
    if set_allowed(m, id, p) {
        m.insert(id, ClipView { contents: c, passphrase: m[id].passphrase })
    } else {
        m
    }
}

/// The mapping from identifiers to entries, all access serialized by the
/// caller (the service holds it under one mutual-exclusion boundary).
pub struct Registry {
    store: StrMap<UnifiedClipboard>,
}

impl View for Registry {
    type V = Map<Seq<char>, ClipView>;

    closed spec fn view(&self) -> Map<Seq<char>, ClipView> {
        self.store@
    }
}

impl Registry {
    pub closed spec fn wf(&self) -> bool {
        self.store.wf()
    }

    /// An empty registry.
    pub fn new() -> (r: Self)
        ensures
            r.wf(),
            r@ == Map::<Seq<char>, ClipView>::empty(),
    {
        Registry { store: StrMap::new() }
    }

    /// Inserts or replaces the entry for `identifier` unconditionally:
    /// registration is trusted, so any prior entry is discarded without an
    /// authorization check. The last `create` wins.
    pub fn create(&mut self, identifier: String, contents: String, passphrase: String)
        requires
            old(self).wf(),
        ensures
            final(self).wf(),
            final(self)@ == old(self)@.insert(
                identifier@,
                ClipView { contents: contents@, passphrase: passphrase@ },
            ),
    {
        self.store.insert(identifier, UnifiedClipboard { contents, passphrase });
    }

    /// The contents of the entry for `identifier`: `NotFound` when no entry
    /// exists, `Forbidden` when the supplied passphrase does not open it.
    pub fn get(&self, identifier: &String, passphrase: &String) -> (r: Result<String, SyncError>)
        requires
            self.wf(),
        ensures
            r is Ok <==> self@.dom().contains(identifier@) && auth_ok(
                self@[identifier@],
                passphrase@,
            ),
            r matches Ok(c) ==> c@ == self@[identifier@].contents,
            r == Err::<String, SyncError>(SyncError::NotFound) <==> !self@.dom().contains(
                identifier@,
            ),
            r == Err::<String, SyncError>(SyncError::Forbidden) <==> self@.dom().contains(
                identifier@,
            ) && !auth_ok(self@[identifier@], passphrase@),
    {
        match self.store.get(identifier) {
            Some(entry) => {
                if entry.passphrase.as_str().is_empty() || entry.passphrase.eq(passphrase) {
                    Ok(entry.contents.clone())
                } else {
                    Err(SyncError::Forbidden)
                }
            },
            None => Err(SyncError::NotFound),
        }
    }

    /// Replaces the contents of the entry for `identifier`, keeping its
    /// passphrase: the caller cannot change a passphrase through `set`.
    /// `NotFound` when no entry exists, `Forbidden` when the supplied
    /// passphrase does not open it; a failed `set` changes nothing.
    pub fn set(&mut self, identifier: &String, contents: String, passphrase: &String) -> (r: Result<
        (),
        SyncError,
    >)
        requires
            old(self).wf(),
        ensures
            final(self).wf(),
            final(self)@ == apply_set(old(self)@, identifier@, contents@, passphrase@),
            r is Ok <==> set_allowed(old(self)@, identifier@, passphrase@),
            r == Err::<(), SyncError>(SyncError::NotFound) <==> !old(self)@.dom().contains(
                identifier@,
            ),
            r == Err::<(), SyncError>(SyncError::Forbidden) <==> old(self)@.dom().contains(
                identifier@,
            ) && !auth_ok(old(self)@[identifier@], passphrase@),
    {
        match self.store.get(identifier) {
            Some(entry) => {
                if entry.passphrase.as_str().is_empty() || entry.passphrase.eq(passphrase) {
                    let kept = entry.passphrase.clone();
                    self.store.insert(
                        identifier.clone(),
                        UnifiedClipboard { contents, passphrase: kept },
                    );
                    Ok(())
                } else {
                    Err(SyncError::Forbidden)
                }
            },
            None => Err(SyncError::NotFound),
        }
    }

    /// Removes the entry for `identifier` under the same authorization rule
    /// as `set`: `NotFound` when no entry exists, `Forbidden` when the
    /// supplied passphrase does not open it; a failed `kill` changes nothing.
    pub fn kill(&mut self, identifier: &String, passphrase: &String) -> (r: Result<(), SyncError>)
        requires
            old(self).wf(),
        ensures
            final(self).wf(),
            r is Ok <==> set_allowed(old(self)@, identifier@, passphrase@),
            r is Ok ==> final(self)@ == old(self)@.remove(identifier@),
            r is Err ==> final(self)@ == old(self)@,
            r == Err::<(), SyncError>(SyncError::NotFound) <==> !old(self)@.dom().contains(
                identifier@,
            ),
            r == Err::<(), SyncError>(SyncError::Forbidden) <==> old(self)@.dom().contains(
                identifier@,
            ) && !auth_ok(old(self)@[identifier@], passphrase@),
    {
        match self.store.get(identifier) {
            Some(entry) => {
                if entry.passphrase.as_str().is_empty() || entry.passphrase.eq(passphrase) {
                    self.store.remove(identifier);
                    Ok(())
                } else {
                    Err(SyncError::Forbidden)
                }
            },
            None => Err(SyncError::NotFound),
        }
    }

    /// All stored identifiers, each exactly once, with no contents and no
    /// authorization: presence display only.
    pub fn list(&self) -> (r: Vec<String>)
        requires
            self.wf(),
        ensures
            distinct_keys(key_views(r@)),
            forall|k: Seq<char>| self@.dom().contains(k) <==> key_views(r@).contains(k),
    {
        self.store.key_list()
    }
}

/// The registry state after a row of `set` calls of `id`, each with
/// passphrase `p`, applied in the order the lock serialized them.
pub open spec fn apply_sets(
    m: Map<Seq<char>, ClipView>,
    id: Seq<char>,
    cs: Seq<Seq<char>>,
    p: Seq<char>,
) -> Map<Seq<char>, ClipView>
    decreases cs.len(),
{
    if cs.len() == 0 {
        m
    } else {
        apply_sets(apply_set(m, id, cs[0], p), id, cs.drop_first(), p)
    }
}

/// The access rule: an entry with an empty passphrase is opened by any
/// supplied passphrase; one with a non-empty passphrase is opened exactly by
/// that passphrase — case-sensitive, with no trimming.
pub proof fn lemma_auth_rule(entry: ClipView, supplied: Seq<char>)
    ensures
        entry.passphrase.len() == 0 ==> auth_ok(entry, supplied),
        entry.passphrase.len() > 0 ==> (auth_ok(entry, supplied) <==> supplied
            == entry.passphrase),
{
}

/// `create` is idempotent overwrite: a second `create` of the same
/// identifier leaves exactly the second entry, with no merge, as if the
/// first had never happened.
pub proof fn lemma_create_overwrite(
    m: Map<Seq<char>, ClipView>,
    id: Seq<char>,
    e1: ClipView,
    e2: ClipView,
)
    ensures
        m.insert(id, e1).insert(id, e2) == m.insert(id, e2),
        m.insert(id, e1).insert(id, e2)[id] == e2,
{
    assert(m.insert(id, e1).insert(id, e2) =~= m.insert(id, e2));
}

/// `set` never changes an entry's passphrase, only its contents, and
/// touches no other entry.
pub proof fn lemma_set_preserves_passphrase(
    m: Map<Seq<char>, ClipView>,
    id: Seq<char>,
    c: Seq<char>,
    p: Seq<char>,
)
    ensures
        apply_set(m, id, c, p).dom() == m.dom(),
        m.dom().contains(id) ==> apply_set(m, id, c, p)[id].passphrase == m[id].passphrase,
        forall|k: Seq<char>| m.dom().contains(k) && k != id ==> apply_set(m, id, c, p)[k] == m[k],
{
    assert(apply_set(m, id, c, p).dom() =~= m.dom());
}

/// Round trip: after `create(id, c, p)`, a `get` whose supplied passphrase
/// is `p` is allowed and returns `c`; with an empty `p` any supplied
/// passphrase is allowed.
pub proof fn lemma_create_then_get(
    m: Map<Seq<char>, ClipView>,
    id: Seq<char>,
    c: Seq<char>,
    p: Seq<char>,
)
    ensures
        m.insert(id, ClipView { contents: c, passphrase: p }).dom().contains(id),
        auth_ok(m.insert(id, ClipView { contents: c, passphrase: p })[id], p),
        m.insert(id, ClipView { contents: c, passphrase: p })[id].contents == c,
        p.len() == 0 ==> forall|q: Seq<char>|
            auth_ok(m.insert(id, ClipView { contents: c, passphrase: p })[id], q),
{
}

/// Serialized concurrent writes: when `set` calls of one identifier, each
/// with a passphrase that opens the entry, run under the registry's
/// mutual-exclusion boundary in some order, every one of them succeeds, the
/// final contents are those of the last call in that order — so exactly one
/// of the supplied values, with no interleaving of partial writes — and the
/// entry's passphrase and the set of identifiers never change.
pub proof fn lemma_serialized_sets(
    m: Map<Seq<char>, ClipView>,
    id: Seq<char>,
    cs: Seq<Seq<char>>,
    p: Seq<char>,
)
    requires
        set_allowed(m, id, p),
        cs.len() > 0,
    ensures
        forall|i: int|
            0 <= i < cs.len() ==> set_allowed(
                #[trigger] apply_sets(m, id, cs.subrange(0, i), p),
                id,
                p,
            ),
        apply_sets(m, id, cs, p)[id].contents == cs.last(),
        exists|i: int| 0 <= i < cs.len() && apply_sets(m, id, cs, p)[id].contents == cs[i],
        apply_sets(m, id, cs, p)[id].passphrase == m[id].passphrase,
        apply_sets(m, id, cs, p).dom() == m.dom(),
    decreases cs.len(),
{
    let m1 = apply_set(m, id, cs[0], p);
    lemma_set_preserves_passphrase(m, id, cs[0], p);
    if cs.len() == 1 {
        assert(cs.drop_first().len() == 0);
        assert(apply_sets(m1, id, cs.drop_first(), p) == m1);
        assert(apply_sets(m, id, cs, p) == m1);
        assert(cs.subrange(0, 0) =~= Seq::<Seq<char>>::empty());
        assert(apply_sets(m, id, cs.subrange(0, 0), p) == m);
        assert(apply_sets(m, id, cs, p)[id].contents == cs[0]);
    } else {
        lemma_serialized_sets(m1, id, cs.drop_first(), p);
        assert(cs.drop_first().last() == cs.last());
        assert forall|i: int| 0 <= i < cs.len() implies set_allowed(
            #[trigger] apply_sets(m, id, cs.subrange(0, i), p),
            id,
            p,
        ) by {
            if i == 0 {
                assert(cs.subrange(0, 0) =~= Seq::<Seq<char>>::empty());
            } else {
                let pre = cs.subrange(0, i);
                assert(pre[0] == cs[0]);
                assert(pre.drop_first() =~= cs.drop_first().subrange(0, i - 1));
                assert(apply_sets(m, id, pre, p) == apply_sets(
                    m1,
                    id,
                    cs.drop_first().subrange(0, i - 1),
                    p,
                ));
            }
        }
        let last = cs.len() - 1;
        assert(apply_sets(m, id, cs, p)[id].contents == cs[last]);
    }
}

} // verus!

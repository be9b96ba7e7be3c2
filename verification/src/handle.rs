use vstd::prelude::*;

use crate::error::Error;
use crate::key::Key;

verus! {

/// How a handle relates to its underlying OS resource.
#[derive(Clone, Copy, Debug, PartialEq, Eq, Structural)]
pub enum HandleKind {
    /// The resource was opened by (or handed over to) this handle, which is
    /// responsible for closing it.
    Owned,
    /// The resource is one of the process's standard streams; on release it
    /// must be let go without being closed, since the process keeps using it.
    Borrowed,
}

/// An identity-comparable file handle: the variant tag saying whether the
/// underlying OS resource is owned or merely borrowed, and the identity key
/// captured when the handle was constructed.
///
/// The key is absent only on borrowed standard-stream handles whose identity
/// query failed (a console with no redirection, say); such a handle compares
/// equal to no other handle, so it can never cause a false cycle report.
#[derive(Debug)]
pub struct Handle {
    kind: HandleKind,
    key: Option<Key>,
}

impl Handle {
    /// The handle's variant tag.
    pub closed spec fn spec_kind(self) -> HandleKind {
        self.kind
    }

    /// The identity key captured at construction, if the query succeeded.
    pub closed spec fn spec_key(self) -> Option<Key> {
        self.key
    }

    /// Well-formedness: an owned handle always carries a key - only borrowed
    /// standard-stream handles may lack one.
    pub open spec fn wf(self) -> bool {
        self.spec_kind() is Owned ==> self.spec_key() is Some
    }

    /// Two handles match by key when both keys are present and equal.  This
    /// is the whole of handle equality, but for one shortcut the predicate
    /// cannot see: a handle also compares equal to itself.
    pub open spec fn key_matches(a: Handle, b: Handle) -> bool {
        a.spec_key() is Some && b.spec_key() is Some && a.spec_key() == b.spec_key()
    }

    /// Decision step of owned-handle construction, applied to the identity
    /// query's outcome once the file is open.  A key must be known for a
    /// regular file, so a failed query fails the whole construction; a
    /// successful one yields an owned handle carrying exactly that key.
    pub fn owned_from_query(query: Result<Key, i32>) -> (r: Result<Handle, Error>)
        ensures
            r matches Ok(h) ==> h.wf(),
            match query {
                Ok(k) => r matches Ok(h) && h.spec_kind() is Owned && h.spec_key() == Some(k),
                Err(code) => r == Err::<Handle, Error>(Error::Query { code }),
            },
    {
        match query {
            Ok(key) => Ok(Handle { kind: HandleKind::Owned, key: Some(key) }),
            Err(code) => Err(Error::Query { code }),
        }
    }

    /// Decision step of standard-stream handle construction, applied to the
    /// identity query's outcome on the borrowed stream.  Construction never
    /// fails: a failed query - the usual state of a console with nothing
    /// redirected - yields a handle with an absent key, which then compares
    /// equal to no other handle.
    pub fn borrowed_from_query(query: Result<Key, i32>) -> (h: Handle)
        ensures
            h.wf(),
            h.spec_kind() is Borrowed,
            match query {
                Ok(k) => h.spec_key() == Some(k),
                Err(_) => h.spec_key() is None,
            },
    {
        match query {
            Ok(key) => Handle { kind: HandleKind::Borrowed, key: Some(key) },
            Err(_) => Handle { kind: HandleKind::Borrowed, key: None },
        }
    }

    /// Relies on std::ptr::eq: it compares the addresses of the two
    /// references, and two references with one address refer to one object,
    /// whose value is equal to itself.  Nothing is assumed about when the
    /// addresses coincide.
    #[verifier::external_body]
    fn same_object(a: &Handle, b: &Handle) -> (r: bool)
        ensures
            r ==> a == b,
    {
        std::ptr::eq(a, b)
    }

    /// Whether the two handles are considered the same file: either both
    /// carry equal keys, or the two references are one and the same handle.
    /// The self-comparison shortcut keeps equality reflexive even for
    /// key-less handles, without ever making two distinct key-less handles
    /// equal.
    pub fn equals(&self, other: &Handle) -> (r: bool)
        ensures
            Handle::key_matches(*self, *other) ==> r,
            r ==> self.spec_key() == other.spec_key(),
            self.spec_key() is Some && other.spec_key() is Some ==> r == Handle::key_matches(
                *self,
                *other,
            ),
    {
        if Handle::same_object(self, other) {
            true
        } else {
            match (self.key, other.key) {
                (Some(k1), Some(k2)) => k1 == k2,
                _ => false,
            }
        }
    }

    /// The handle's variant tag.
    pub fn kind(&self) -> (k: HandleKind)
        ensures
            k == self.spec_kind(),
    {
        self.kind
    }

    /// The identity key captured at construction, if the query succeeded.
    pub fn key(&self) -> (k: Option<Key>)
        ensures
            k == self.spec_key(),
    {
        self.key
    }
}

impl PartialEq for Handle {
    /// Handle equality as `equals` decides it.  The result is deliberately
    /// not pinned to `eq_spec` below: besides matching keys, a handle is
    /// equal to itself by address identity, which spec-level equality over
    /// the handle's value cannot see.  `equals` carries the proved facts.
    fn eq(&self, other: &Handle) -> bool {
        self.equals(other)
    }
}

impl vstd::std_specs::cmp::PartialEqSpecImpl for Handle {
    open spec fn obeys_eq_spec() -> bool {
        false
    }

    open spec fn eq_spec(&self, other: &Handle) -> bool {
        Handle::key_matches(*self, *other)
    }
}

impl Eq for Handle {

}

impl core::hash::Hash for Handle {
    /// Relies on std's Hash for Option<Key>: the hash is fed from the
    /// optional key alone - never from the variant tag - so matching handles
    /// hash alike, and an absent key feeds a fixed sentinel discriminant
    /// distinct from any present key's input.
    #[verifier::external_body]
    fn hash<H: core::hash::Hasher>(&self, state: &mut H) {
        self.key.hash(state)
    }
}

/// Law: two handles whose identity queries returned one and the same key -
/// as two concurrently open handles on one path do - match by key, and
/// `equals` therefore answers true on them.
pub proof fn lemma_same_key_handles_match(a: Handle, b: Handle)
    requires
        a.spec_key() is Some,
        a.spec_key() == b.spec_key(),
    ensures
        Handle::key_matches(a, b),
{
}

/// Law: matching handles agree on their key, so any hash computed from the
/// key alone - which is how handles are hashed - agrees on them too.
pub proof fn lemma_matching_handles_agree_on_key(a: Handle, b: Handle)
    requires
        Handle::key_matches(a, b),
    ensures
        a.spec_key() == b.spec_key(),
{
}

/// Law: handles with present but different keys never match, so two files
/// the OS reported with different identities are never confused - cycle
/// detection sees no false positives from keyed handles.
pub proof fn lemma_distinct_keys_never_match(a: Handle, b: Handle)
    requires
        a.spec_key() is Some,
        b.spec_key() is Some,
        a.spec_key() != b.spec_key(),
    ensures
        !Handle::key_matches(a, b),
{
}

/// Law: a keyed handle matches itself.  For a key-less handle, reflexivity
/// of `equals` rests on the self-comparison shortcut instead, which the
/// key-match predicate cannot see.
pub proof fn lemma_keyed_handle_matches_itself(a: Handle)
    requires
        a.spec_key() is Some,
    ensures
        Handle::key_matches(a, a),
{
}

/// Law: a handle with an absent key matches no handle by key, in either
/// direction.  With `equals`'s contract - a true answer forces the keys to
/// agree - a key-less handle can compare equal only to itself.
pub proof fn lemma_keyless_handle_matches_nothing(a: Handle, b: Handle)
    requires
        a.spec_key() is None,
    ensures
        !Handle::key_matches(a, b),
        !Handle::key_matches(b, a),
{
}

/// Law: matching by key is symmetric.
pub proof fn lemma_key_matches_symmetric(a: Handle, b: Handle)
    ensures
        Handle::key_matches(a, b) == Handle::key_matches(b, a),
{
}

/// Law: matching by key is transitive.
pub proof fn lemma_key_matches_transitive(a: Handle, b: Handle, c: Handle)
    requires
        Handle::key_matches(a, b),
        Handle::key_matches(b, c),
    ensures
        Handle::key_matches(a, c),
{
}

} // verus!

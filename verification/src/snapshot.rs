//! Type-erased element state snapshots and their checked downcast.
//!
//! A snapshot is only ever restored into the element kind that took it, within
//! one run. A type mismatch therefore means that an element's `snapshot_state`
//! and `restore_state` no longer agree: a program error, never a data error.
//! [`downcast_snapshot`] reports it with the element kind and the expected type
//! instead of silently skipping the restore, which would let a non-converged
//! step continue from a polluted state.
use vstd::prelude::*;
use vstd::string::StringExecFns;

verus! {

/// A snapshot of an element's state, of a type known only to that element.
#[verifier::external_body]
pub struct ElementSnapshot {
    inner: Box<dyn std::any::Any>,
}

impl ElementSnapshot {
    /// `Box::new`, erased to `Box<dyn Any>`: wraps `value` as a snapshot.
    #[verifier::external_body]
    pub fn new<T: 'static>(value: T) -> (s: ElementSnapshot) {
        ElementSnapshot { inner: Box::new(value) }
    }
}

/// `<dyn Any>::downcast_ref`: the snapshot's value if it has type `T`.
#[verifier::external_body]
fn snapshot_downcast<'a, T: 'static>(state: &'a ElementSnapshot) -> (r: Option<&'a T>) {
    state.inner.downcast_ref::<T>()
}

/// A snapshot handed to an element kind that did not take it.
pub struct SnapshotMismatch {
    /// The element kind whose restore received the snapshot.
    pub element: String,
}

/// The text that reports a snapshot mismatch.
pub open spec fn mismatch_message(element: Seq<char>, expected: Seq<char>) -> Seq<char> {
    element + "::restore_state: スナップショットの型が一致しません（期待: "@ + expected
        + "）。snapshot_state と restore_state の実装対応が崩れています"@
}

impl SnapshotMismatch {
    /// The report naming the element kind and `expected`, the description
    /// of the type that the element expected.
    pub fn message(&self, expected: &str) -> (m: String)
        ensures
            m@ == mismatch_message(self.element@, expected@),
    {
        let mut m = String::from_str(self.element.as_str());
        m.append("::restore_state: スナップショットの型が一致しません（期待: ");
        m.append(expected);
        m.append("）。snapshot_state と restore_state の実装対応が崩れています");
        m
    }
}

/// The outcome of restoring from a downcast's result `found`: the value when
/// the snapshot held a `T`, else the mismatch naming `element`.
pub fn snapshot_or_mismatch<'a, T>(element: &str, found: Option<&'a T>) -> (r: Result<
    &'a T,
    SnapshotMismatch,
>)
    ensures
        found matches Some(v) ==> (r matches Ok(w) && w == v),
        found is None ==> (r matches Err(e) && e.element@ == element@),
{
    match found {
        Some(v) => Ok(v),
        None => Err(SnapshotMismatch { element: String::from_str(element) }),
    }
}

/// The snapshot's value as a `T`, or, when it holds another type, the
/// mismatch naming `element`.
pub fn downcast_snapshot<'a, T: 'static>(element: &str, state: &'a ElementSnapshot) -> (r: Result<
    &'a T,
    SnapshotMismatch,
>)
    ensures
        r matches Err(e) ==> e.element@ == element@,
{
    snapshot_or_mismatch(element, snapshot_downcast::<T>(state))
}

} // verus!

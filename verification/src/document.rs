//! Document-handle logic that needs no native call: the finalize-once
//! lifecycle of the owned native resource, the page-range clamping policy of
//! fixed-layout conversion, and the interpretation of a native link-resolution
//! result.

use vstd::prelude::*;

verus! {

/// The ownership state of one native document resource, tracked by the
/// handle that embeds it. The handle's finalizer decides from this state
/// alone whether the underlying resource must be released, so the release
/// happens exactly once for a successfully constructed handle and never for
/// one whose reference was null.
#[derive(Debug, Clone, Copy, PartialEq, Eq, Structural)]
pub struct HandleLifecycle {
    /// Whether a native resource is attached: a fully constructed handle
    /// always holds one; a null reference leaves nothing to release.
    pub attached: bool,
    /// Whether the resource has already been released.
    pub released: bool,
}

/// Whether a finalization of a handle in state `s` must release the native
/// resource: only if one is attached and it was not released before.
pub open spec fn must_release(s: HandleLifecycle) -> bool {
    s.attached && !s.released
}

/// The state after one finalization: whatever held before, the resource
/// counts as released from now on.
pub open spec fn finalized(s: HandleLifecycle) -> HandleLifecycle {
    HandleLifecycle { attached: s.attached, released: true }
}

impl HandleLifecycle {
    /// The state of a freshly constructed handle that owns a native resource.
    pub fn acquired() -> (s: HandleLifecycle)
        ensures
            s == (HandleLifecycle { attached: true, released: false }),
            must_release(s),
    {
        HandleLifecycle { attached: true, released: false }
    }

    /// One finalization step: reports whether the native resource must be
    /// released now, and records that it no longer may be afterwards.
    pub fn finalize(&mut self) -> (release: bool)
        ensures
            release == must_release(*old(self)),
            *final(self) == finalized(*old(self)),
    {
        let release = self.attached && !self.released;
        self.released = true;
        release
    }
}

/// A handle's resource is released at most once: whatever state a handle is
/// in, once it has been finalized no further finalization releases, so across
/// any sequence of construction/finalization cycles each acquired resource is
/// released exactly once, by the first finalization of its handle.
pub proof fn lemma_release_at_most_once(s: HandleLifecycle)
    ensures
        !must_release(finalized(s)),
        finalized(finalized(s)) == finalized(s),
        must_release(HandleLifecycle { attached: true, released: false }),
{
}

/// The start bound of a fixed-layout conversion: only the upper bound is
/// clamped to the last page; a negative start is passed through uncorrected
/// to the native layer.
pub open spec fn clamped_start(start_page: int, page_count: int) -> int {
    if start_page > page_count - 1 {
        page_count - 1
    } else {
        start_page
    }
}

/// The end bound of a fixed-layout conversion: clamped to the last page both
/// when past it and when negative.
pub open spec fn clamped_end(end_page: int, page_count: int) -> int {
    if end_page > page_count - 1 || end_page < 0 {
        page_count - 1
    } else {
        end_page
    }
}

/// Clamps the page range handed to the native fixed-layout conversion,
/// reproducing the asymmetric policy: `start_page` is clamped only from
/// above, `end_page` from above and below.
pub fn clamp_page_range(start_page: i32, end_page: i32, page_count: i32) -> (r: (i32, i32))
    requires
        page_count >= 0,
    ensures
        r.0 == clamped_start(start_page as int, page_count as int),
        r.1 == clamped_end(end_page as int, page_count as int),
{
    let start = if start_page > page_count - 1 {
        page_count - 1
    } else {
        start_page
    };
    let end = if end_page > page_count - 1 || end_page < 0 {
        page_count - 1
    } else {
        end_page
    };
    (start, end)
}

/// The clamping policy, spelled out for every input: a start past the last
/// page clamps to the last page and any other start — negative ones included
/// — passes through unchanged; an end past the last page or negative clamps
/// to the last page and any other end passes through unchanged. In
/// particular, for a non-empty range both clamped bounds lie below the page
/// count, and an in-range bound is never moved.
pub proof fn lemma_clamp_policy(start_page: int, end_page: int, page_count: int)
    requires
        page_count >= 0,
    ensures
        start_page > page_count - 1 ==> clamped_start(start_page, page_count) == page_count - 1,
        start_page <= page_count - 1 ==> clamped_start(start_page, page_count) == start_page,
        start_page < 0 ==> clamped_start(start_page, page_count) == start_page,
        end_page > page_count - 1 || end_page < 0 ==> clamped_end(end_page, page_count)
            == page_count - 1,
        0 <= end_page <= page_count - 1 ==> clamped_end(end_page, page_count) == end_page,
        clamped_start(start_page, page_count) <= page_count - 1,
        0 <= clamped_end(end_page, page_count) <= page_count - 1 || page_count == 0,
{
}

/// Interprets the native link-resolution result: the engine signals "does not
/// resolve" with a negative target, anything else is the target page index.
/// Soft absence, never a failure.
pub fn link_target(n: i32) -> (r: Option<i32>)
    ensures
        n >= 0 ==> r == Some(n),
        n < 0 ==> r is None,
{
    if n >= 0 {
        Some(n)
    } else {
        None
    }
}

} // verus!

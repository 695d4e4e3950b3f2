//! Handle lifecycle and the error-reporting protocol of one driver context.
//!
//! A [`DriverContext`] owns the bridge-side state of one driver instance: the
//! table of live opaque handles and the single mutable error slot. A handle
//! is a signed 64-bit token; `0` is the reserved "no resource" sentinel, and
//! a handle is valid exactly while it has been created and not yet disposed.
//! Handle numbers are never recycled: a disposed number stays invalid
//! forever, so stale handles cannot be mistaken for fresh ones.
//!
//! Every failing operation writes its message to the error slot first and
//! then returns its sentinel (`0` for a failed open, `-1` for a failed
//! statement, no array for a failed query); a succeeding operation leaves the
//! slot untouched, so readers that poll the slot right after observing a
//! sentinel see the failure that caused it.

use vstd::prelude::*;

use crate::row::SqlRow;

verus! {

/// The bridge-side state of one driver instance: live handle table, handle
/// counter, and the most recent failure message.
pub struct DriverContext {
    error: Option<String>,
    next_handle: i64,
    live: Vec<i64>,
}

impl DriverContext {
    /// The most recent failure message, if one has been reported.
    pub closed spec fn spec_error(self) -> Option<Seq<char>> {
        match self.error {
            Some(s) => Some(s@),
            None => None,
        }
    }

    /// The set of handles that have been created and not yet disposed.
    pub closed spec fn live_handles(self) -> Set<i64> {
        self.live@.to_set()
    }

    /// How many handles this context has issued so far.
    pub closed spec fn issued(self) -> int {
        self.next_handle - 1
    }

    /// Well-formedness: at least one handle number remains reserved as the
    /// failure sentinel, no handle is listed twice, and every live handle was
    /// issued: it lies in `1 ..= issued()`.
    pub closed spec fn wf(self) -> bool {
        &&& 1 <= self.next_handle
        &&& self.live@.no_duplicates()
        &&& forall|i: int|
            0 <= i < self.live@.len() ==> 1 <= #[trigger] self.live@[i] < self.next_handle
    }

    /// A fresh context: no live handles, nothing issued, no error reported.
    pub fn new() -> (c: DriverContext)
        ensures
            c.wf(),
            c.spec_error() is None,
            c.issued() == 0,
            c.live_handles() == Set::<i64>::empty(),
    {
        let c = DriverContext { error: None, next_handle: 1, live: Vec::new() };
        proof {
            assert(c.live@.to_set() =~= Set::<i64>::empty());
        }
        c
    }

    /// Records the outcome of opening a backend resource.
    ///
    /// On success a brand-new nonzero handle is issued: strictly above every
    /// handle issued before, so never a recycled number. On failure the
    /// message is written to the error slot and the reserved sentinel `0` is
    /// returned; the handle table does not change.
    pub fn open_outcome(&mut self, outcome: Result<(), String>) -> (h: i64)
        requires
            old(self).wf(),
            old(self).issued() < i64::MAX - 1,
            outcome matches Err(m) ==> m@.len() > 0,
        ensures
            final(self).wf(),
            outcome is Ok ==> {
                &&& h == old(self).issued() + 1
                &&& h != 0
                &&& !old(self).live_handles().contains(h)
                &&& final(self).live_handles() == old(self).live_handles().insert(h)
                &&& final(self).issued() == old(self).issued() + 1
                &&& final(self).spec_error() == old(self).spec_error()
            },
            outcome matches Err(m) ==> {
                &&& h == 0
                &&& final(self).spec_error() matches Some(e) && e == m@ && e.len() > 0
                &&& final(self).live_handles() == old(self).live_handles()
                &&& final(self).issued() == old(self).issued()
            },
    {
        match outcome {
            Ok(()) => {
                let h = self.next_handle;
                proof {
                    assert(!self.live@.contains(h)) by {
                        if self.live@.contains(h) {
                            let i = choose|i: int|
                                0 <= i < self.live@.len() && self.live@[i] == h;
                            assert(self.live@[i] < h);
                        }
                    }
                }
                self.next_handle = self.next_handle + 1;
                let ghost before = self.live@;
                self.live.push(h);
                proof {
                    before.lemma_push_to_set_commute(h);
                }
                h
            },
            Err(m) => {
                self.error = Some(m);
                0
            },
        }
    }

    /// Whether a handle is currently valid: created and not yet disposed.
    pub fn is_live(&self, h: i64) -> (b: bool)
        ensures
            b == self.live_handles().contains(h),
    {
        let mut i: usize = 0;
        while i < self.live.len()
            invariant
                i <= self.live@.len(),
                forall|j: int| 0 <= j < i ==> #[trigger] self.live@[j] != h,
            decreases self.live@.len() - i,
        {
            if self.live[i] == h {
                return true;
            }
            i = i + 1;
        }
        false
    }

    /// Reports a statement-execution failure that was detected before or
    /// during the backend call: writes the message to the error slot, then
    /// returns the statement failure sentinel `-1`.
    pub fn fail_statement(&mut self, msg: String) -> (r: i32)
        requires
            old(self).wf(),
            msg@.len() > 0,
        ensures
            final(self).wf(),
            r == -1,
            final(self).spec_error() matches Some(e) && e == msg@,
            final(self).live_handles() == old(self).live_handles(),
            final(self).issued() == old(self).issued(),
    {
        self.error = Some(msg);
        -1
    }

    /// Records the outcome of executing a statement with no result set on a
    /// live handle: `0` on success, `-1` on failure with the message written
    /// to the error slot first. The handle stays valid either way.
    ///
    /// Calling this with a handle that was never issued, or was already
    /// disposed, is outside the contract: handle use after disposal is
    /// undefined by design.
    pub fn statement_outcome(&mut self, h: i64, outcome: Result<(), String>) -> (r: i32)
        requires
            old(self).wf(),
            old(self).live_handles().contains(h),
            outcome matches Err(m) ==> m@.len() > 0,
        ensures
            final(self).wf(),
            final(self).live_handles() == old(self).live_handles(),
            final(self).issued() == old(self).issued(),
            outcome is Ok ==> r == 0 && final(self).spec_error() == old(self).spec_error(),
            outcome matches Err(m) ==> r == -1 && (final(self).spec_error() matches Some(e) && e
                == m@),
    {
        match outcome {
            Ok(()) => 0,
            Err(m) => {
                self.error = Some(m);
                -1
            },
        }
    }

    /// Reports a query failure that was detected before or during the
    /// backend call: writes the message to the error slot, then returns the
    /// query failure sentinel, the absent row array.
    pub fn fail_query(&mut self, msg: String) -> (r: Option<Vec<SqlRow>>)
        requires
            old(self).wf(),
            msg@.len() > 0,
        ensures
            final(self).wf(),
            r is None,
            final(self).spec_error() matches Some(e) && e == msg@,
            final(self).live_handles() == old(self).live_handles(),
            final(self).issued() == old(self).issued(),
    {
        self.error = Some(msg);
        None
    }

    /// Records the outcome of a row-returning query on a live handle: the
    /// projected rows on success, the absent row array on failure with the
    /// message written to the error slot first. The handle stays valid
    /// either way.
    ///
    /// Calling this with a handle that was never issued, or was already
    /// disposed, is outside the contract: handle use after disposal is
    /// undefined by design.
    pub fn query_outcome(&mut self, h: i64, outcome: Result<Vec<SqlRow>, String>) -> (r: Option<
        Vec<SqlRow>,
    >)
        requires
            old(self).wf(),
            old(self).live_handles().contains(h),
            outcome matches Err(m) ==> m@.len() > 0,
        ensures
            final(self).wf(),
            final(self).live_handles() == old(self).live_handles(),
            final(self).issued() == old(self).issued(),
            outcome matches Ok(rows) ==> r matches Some(given) && given == rows && final(self).spec_error() == old(self).spec_error(),
            outcome matches Err(m) ==> r is None && (final(self).spec_error() matches Some(e) && e
                == m@),
    {
        match outcome {
            Ok(rows) => Some(rows),
            Err(m) => {
                self.error = Some(m);
                None
            },
        }
    }

    /// Disposes a live handle: the handle becomes permanently invalid, every
    /// other handle stays as it was, and the error slot is untouched.
    ///
    /// Exactly one disposal call per handle is valid. Disposing a handle
    /// twice, or using it afterward, is outside the contract: undefined by
    /// design, and excluded here by requiring the handle to be live.
    pub fn dispose(&mut self, h: i64)
        requires
            old(self).wf(),
            old(self).live_handles().contains(h),
        ensures
            final(self).wf(),
            final(self).live_handles() == old(self).live_handles().remove(h),
            final(self).issued() == old(self).issued(),
            final(self).spec_error() == old(self).spec_error(),
    {
        let mut i: usize = 0;
        while i < self.live.len()
            invariant
                *self == *old(self),
                old(self).wf(),
                old(self).live_handles().contains(h),
                i <= self.live@.len(),
                forall|j: int| 0 <= j < i ==> #[trigger] self.live@[j] != h,
            decreases self.live@.len() - i,
        {
            if self.live[i] == h {
                let ghost before = self.live@;
                self.live.remove(i);
                proof {
                    lemma_remove_index_to_set(before, i as int);
                    before.remove_ensures(i as int);
                }
                return ;
            }
            i = i + 1;
        }
        proof {
            // The scan cannot fall through: the handle is live, so it stands
            // at some index of the table.
            let k = choose|k: int| 0 <= k < self.live@.len() && self.live@[k] == h;
            assert(self.live@[k] != h);
        }
    }

    /// Reads the error slot: the most recent failure message, if any. Valid
    /// to poll right after observing a failure sentinel from the most recent
    /// call on this context.
    pub fn last_error(&self) -> (e: Option<&String>)
        ensures
            e matches Some(s) ==> self.spec_error() == Some(s@),
            e is None ==> self.spec_error() is None,
    {
        self.error.as_ref()
    }

    /// Every live handle was issued by this context: handle validity means
    /// created (so numbered in `1 ..= issued()`) and not yet disposed.
    pub proof fn lemma_live_handle_was_issued(self, h: i64)
        requires
            self.wf(),
            self.live_handles().contains(h),
        ensures
            1 <= h <= self.issued(),
    {
        let i = choose|i: int| 0 <= i < self.live@.len() && self.live@[i] == h;
        assert(1 <= self.live@[i] < self.next_handle);
    }
}

/// Removing the element at one index of a duplicate-free sequence removes
/// exactly that element from the sequence's set of values.
proof fn lemma_remove_index_to_set(s: Seq<i64>, k: int)
    requires
        s.no_duplicates(),
        0 <= k < s.len(),
    ensures
        s.remove(k).to_set() == s.to_set().remove(s[k]),
{
    let t = s.remove(k);
    s.remove_ensures(k);
    assert forall|x: i64| t.to_set().contains(x) implies s.to_set().remove(s[k]).contains(x) by {
        let i = choose|i: int| 0 <= i < t.len() && t[i] == x;
        if i < k {
            assert(s[i] == x);
        } else {
            assert(s[i + 1] == x);
        }
        assert(x != s[k]);
    }
    assert forall|x: i64| s.to_set().remove(s[k]).contains(x) implies t.to_set().contains(x) by {
        let i = choose|i: int| 0 <= i < s.len() && s[i] == x;
        if i < k {
            assert(t[i] == x);
        } else {
            assert(i != k);
            assert(t[i - 1] == x);
        }
    }
    assert(t.to_set() =~= s.to_set().remove(s[k]));
}

/// A disposed handle is never reissued: a later successful open hands out a
/// number strictly above every handle issued before it, so a handle that was
/// issued once and then disposed can never become live again. Exactly one
/// disposal call per handle is ever valid.
pub proof fn lemma_disposed_handle_not_reissued(
    pre: DriverContext,
    post: DriverContext,
    fresh: i64,
    h: i64,
)
    requires
        pre.wf(),
        1 <= h <= pre.issued(),
        !pre.live_handles().contains(h),
        fresh == pre.issued() + 1,
        post.live_handles() == pre.live_handles().insert(fresh),
    ensures
        !post.live_handles().contains(h),
{
}

} // verus!

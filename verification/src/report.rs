//! The growing report: taking in messages, and dropping repeated issues.

use crate::clippy::{outcome_of, Skipped};
use crate::dedup::without_repeats;
use crate::diagnostic::Message;
use crate::sonar::{issue_views, Issue, IssueView, IssuesList};
use vstd::prelude::*;

verus! {

/// Whether the issue at `at` equals one that stands before it.
fn occurs_before(issues: &Vec<Issue>, at: usize) -> (found: bool)
    requires
        at < issues.len(),
    ensures
        found == issue_views(issues@).take(at as int).contains(issues[at as int]@),
{
    let ghost earlier = issue_views(issues@).take(at as int);
    let mut j: usize = 0;
    while j < at
        invariant
            j <= at < issues.len(),
            earlier == issue_views(issues@).take(at as int),
            forall|k: int| 0 <= k < j ==> earlier[k] != issues[at as int]@,
        decreases at - j,
    {
        if issues[j] == issues[at] {
            assert(earlier[j as int] == issues[at as int]@);
            return true;
        }
        j += 1;
    }
    false
}

impl IssuesList {
    /// A report without issues.
    pub fn new() -> (list: IssuesList)
        ensures
            list@ == Seq::<IssueView>::empty(),
    {
        IssuesList { issues: Vec::new() }
    }

    /// Takes in one message of the lint run.
    ///
    /// A compiler message whose diagnostic has a primary span adds its issue
    /// at the end of the report. Any other message leaves the report as it
    /// is, and the reason is handed back.
    pub fn record(&mut self, message: Message) -> (done: Result<(), Skipped>)
        requires
            message.well_formed(),
        ensures
            match done {
                Ok(()) => {
                    &&& outcome_of(message@) is Ok
                    &&& final(self)@ == old(self)@.push(outcome_of(message@)->Ok_0)
                },
                Err(reason) => {
                    &&& outcome_of(message@) == Err::<IssueView, Skipped>(reason)
                    &&& final(self)@ == old(self)@
                },
            },
    {
        match Issue::try_from_message(message) {
            Ok(issue) => {
                self.issues.push(issue);
                Ok(())
            },
            Err(reason) => Err(reason),
        }
    }

    /// Drops every issue that equals an earlier one. What stays keeps its
    /// place among the others.
    pub fn dedup(&mut self)
        ensures
            final(self)@ == without_repeats(old(self)@),
    {
        let ghost all = self@;
        let ghost mut seen: int = 0;
        let mut kept: usize = 0;
        while kept < self.issues.len()
            invariant
                kept <= self.issues.len(),
                0 <= seen <= all.len(),
                self.issues.len() - kept == all.len() - seen,
                self@.take(kept as int) == without_repeats(all.take(seen)),
                self@.skip(kept as int) == all.skip(seen),
            decreases self.issues.len() - kept,
        {
            let ghost before = self@;
            proof {
                assert(all.take(seen + 1).drop_last() =~= all.take(seen));
                assert(before[kept as int] == before.skip(kept as int)[0]);
                assert(all.skip(seen + 1) =~= all.skip(seen).skip(1));
            }
            if occurs_before(&self.issues, kept) {
                self.issues.remove(kept);
            } else {
                kept += 1;
            }
            proof {
                seen = seen + 1;
            }
        }
        assert(all.take(seen) =~= all);
    }
}

} // verus!

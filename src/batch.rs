//! One pass of the batch queue processor: every file of the directory is
//! read, trimmed and sent as a line; the pass reports a result per file.

use vstd::prelude::*;
use crate::text::{line_text, queue_command, trim_ws};
use crate::types::CommandResult;

verus! {

/// Output recorded for a command that reached the shell.
pub const SENT_OUTPUT: &'static str = "Command sent to shell";

/// What to do with a file once it has been read.
#[derive(Debug)]
pub enum FileStep {
    /// The file could not be read: log `log` and leave the file alone.
    Skip { log: String },
    /// Log `log`, then send `line` to the shell.
    Send { log: String, command: String, line: String },
}

/// What a pass records for a file: the result's output and success flag.
pub open spec fn result_view(r: CommandResult) -> (Seq<char>, bool) {
    (r.output@, r.success)
}

/// Results of a pass, keyed by file name.
pub struct BatchPass {
    pub results: Vec<(String, CommandResult)>,
}

/// The results that a pass holds after files were handled in `outcomes`
/// order, each outcome being a file name and whether the file was read and
/// its line sent (a read or send failure records a failed result).
pub open spec fn pass_results(outcomes: Seq<(Seq<char>, bool)>) -> Map<Seq<char>, bool>
    decreases outcomes.len(),
{
    if outcomes.len() == 0 {
        Map::empty()
    } else {
        let last = outcomes.last();
        pass_results(outcomes.drop_last()).insert(last.0, last.1)
    }
}

/// Number of files a pass removes: those read and whose line was sent.
pub open spec fn removed_count(outcomes: Seq<(Seq<char>, bool)>) -> nat
    decreases outcomes.len(),
{
    if outcomes.len() == 0 {
        0
    } else {
        removed_count(outcomes.drop_last()) + if outcomes.last().1 {
            1nat
        } else {
            0nat
        }
    }
}

/// Names of the files of a run of outcomes.
pub open spec fn outcome_names(outcomes: Seq<(Seq<char>, bool)>) -> Set<Seq<char>> {
    Set::new(|n: Seq<char>| exists|i: int| 0 <= i < outcomes.len() && #[trigger] outcomes[i].0 == n)
}

/// A pass over distinct files reports exactly one result per file, keyed by
/// its name, and removes exactly the files whose line was sent. An empty
/// directory gives an empty result and removes nothing.
pub proof fn lemma_pass_reports_each_file(outcomes: Seq<(Seq<char>, bool)>)
    requires
        forall|i: int, j: int|
            0 <= i < j < outcomes.len() ==> #[trigger] outcomes[i].0 != #[trigger] outcomes[j].0,
    ensures
        pass_results(outcomes).dom() == outcome_names(outcomes),
        pass_results(outcomes).dom().finite(),
        pass_results(outcomes).len() == outcomes.len(),
        forall|i: int| 0 <= i < outcomes.len() ==> pass_results(outcomes)[#[trigger] outcomes[i].0] == outcomes[i].1,
        removed_count(outcomes) <= outcomes.len(),
        (forall|i: int| 0 <= i < outcomes.len() ==> #[trigger] outcomes[i].1) ==> removed_count(outcomes)
            == outcomes.len(),
    decreases outcomes.len(),
{
    if outcomes.len() > 0 {
        let init = outcomes.drop_last();
        let last = outcomes.last();
        lemma_pass_reports_each_file(init);
        let m = pass_results(init);
        assert(!m.dom().contains(last.0)) by {
            if m.dom().contains(last.0) {
                let i = choose|i: int| 0 <= i < init.len() && #[trigger] init[i].0 == last.0;
                assert(outcomes[i].0 == outcomes[outcomes.len() - 1].0);
            }
        }
        assert(pass_results(outcomes).dom() =~= outcome_names(outcomes)) by {
            assert forall|n: Seq<char>| outcome_names(outcomes).contains(n) implies pass_results(
                outcomes,
            ).dom().contains(n) by {
                let i = choose|i: int| 0 <= i < outcomes.len() && #[trigger] outcomes[i].0 == n;
                if i < outcomes.len() - 1 {
                    assert(init[i].0 == n);
                }
            }
            assert forall|n: Seq<char>| pass_results(outcomes).dom().contains(n) implies outcome_names(
                outcomes,
            ).contains(n) by {
                if n != last.0 {
                    let i = choose|i: int| 0 <= i < init.len() && #[trigger] init[i].0 == n;
                    assert(outcomes[i].0 == n);
                } else {
                    assert(outcomes[outcomes.len() - 1].0 == n);
                }
            }
        }
        assert forall|i: int| 0 <= i < outcomes.len() implies pass_results(outcomes)[#[trigger] outcomes[i].0]
            == outcomes[i].1 by {
            if i < outcomes.len() - 1 {
                assert(init[i] == outcomes[i]);
            }
        }
        if forall|i: int| 0 <= i < outcomes.len() ==> #[trigger] outcomes[i].1 {
            assert forall|i: int| 0 <= i < init.len() implies #[trigger] init[i].1 by {
                assert(init[i] == outcomes[i]);
            }
            assert(outcomes[outcomes.len() - 1].1);
        }
    } else {
        assert(pass_results(outcomes).dom() =~= outcome_names(outcomes));
    }
}

/// The audit text after the removal of a sent file was tried.
pub fn removal_log(name: &str, removed: Result<(), String>) -> (r: String)
    ensures
        removed is Ok ==> r@ == "✅ Completed and removed: "@ + name@,
        removed matches Err(e) ==> r@ == "⚠️  Warning: Failed to remove queue file "@ + name@ + ": "@ + e@,
{
    match removed {
        Ok(()) => {
            let mut r = String::from_str("✅ Completed and removed: ");
            r.append(name);
            r
        },
        Err(e) => {
            let mut r = String::from_str("⚠️  Warning: Failed to remove queue file ");
            r.append(name);
            r.append(": ");
            r.append(e.as_str());
            r
        },
    }
}

impl BatchPass {
    /// The results as a map from file name to output and success.
    pub open spec fn view(self) -> Map<Seq<char>, (Seq<char>, bool)> {
        Map::new(
            |n: Seq<char>| exists|i: int| 0 <= i < self.results.len() && #[trigger] self.results@[i].0@ == n,
            |n: Seq<char>|
                {
                    let i = choose|i: int| 0 <= i < self.results.len() && #[trigger] self.results@[i].0@ == n;
                    result_view(self.results@[i].1)
                },
        )
    }

    /// No two results share a name.
    pub open spec fn wf(self) -> bool {
        forall|i: int, j: int|
            0 <= i < j < self.results.len() ==> #[trigger] self.results@[i].0@ != #[trigger] self.results@[j].0@
    }

    /// A pass with no results yet.
    pub fn new() -> (r: BatchPass)
        ensures
            r.wf(),
            r.view() == Map::<Seq<char>, (Seq<char>, bool)>::empty(),
    {
        let r = BatchPass { results: Vec::new() };
        assert(r.view() =~= Map::<Seq<char>, (Seq<char>, bool)>::empty());
        r
    }

    /// Number of results.
    pub fn len(&self) -> (r: usize)
        requires
            self.wf(),
        ensures
            r == self.view().len(),
    {
        proof {
            self.lemma_view_len();
        }
        self.results.len()
    }

    proof fn lemma_view_len(self)
        requires
            self.wf(),
        ensures
            self.view().dom().finite(),
            self.view().len() == self.results.len(),
        decreases self.results.len(),
    {
        let names = Seq::new(self.results@.len(), |i: int| self.results@[i].0@);
        assert(self.view().dom() =~= names.to_set()) by {
            assert forall|n: Seq<char>| self.view().dom().contains(n) implies names.to_set().contains(n) by {
                let i = choose|i: int| 0 <= i < self.results.len() && #[trigger] self.results@[i].0@ == n;
                assert(names[i] == n);
            }
            assert forall|n: Seq<char>| names.to_set().contains(n) implies self.view().dom().contains(n) by {
                let i = choose|i: int| 0 <= i < names.len() && names[i] == n;
                assert(self.results@[i].0@ == n);
            }
        }
        assert(names.no_duplicates()) by {
            assert forall|i: int, j: int| 0 <= i < names.len() && 0 <= j < names.len() && i != j implies names[i]
                != names[j] by {
                if i < j {
                    assert(self.results@[i].0@ != self.results@[j].0@);
                } else {
                    assert(self.results@[j].0@ != self.results@[i].0@);
                }
            }
        }
        names.unique_seq_to_set();
    }

    /// Stores `result` under `key`, replacing an earlier result of that name.
    fn insert_result(&mut self, key: String, result: CommandResult)
        requires
            old(self).wf(),
        ensures
            final(self).wf(),
            final(self).view() == old(self).view().insert(key@, result_view(result)),
    {
        let ghost name = key@;
        let ghost rv = result_view(result);
        let ghost old_view = self.view();
        let mut i: usize = 0;
        while i < self.results.len()
            invariant
                self.wf(),
                *self == *old(self),
                key@ == name,
                old_view == old(self).view(),
                rv == result_view(result),
                0 <= i <= self.results.len(),
                forall|j: int| 0 <= j < i ==> #[trigger] self.results@[j].0@ != name,
            decreases self.results.len() - i,
        {
            if self.results[i].0 == key {
                let ghost before = self.results@;
                self.results.set(i, (key, result));
                proof {
                    assert(before[i as int].0@ == name);
                    assert forall|a: int, b: int| 0 <= a < b < self.results.len() implies #[trigger] self.results@[a].0@
                        != #[trigger] self.results@[b].0@ by {
                        assert(before[a].0@ != before[b].0@);
                    }
                    assert(self.view() =~= old_view.insert(name, rv)) by {
                        assert forall|n: Seq<char>| #[trigger] self.view().dom().contains(n) implies old_view.dom().contains(n)
                            || n == name by {
                            let k = choose|k: int| 0 <= k < self.results.len() && #[trigger] self.results@[k].0@ == n;
                            if k != i {
                                assert(before[k].0@ == n);
                            }
                        }
                        assert forall|n: Seq<char>| #[trigger] old_view.dom().contains(n) implies self.view().dom().contains(n) by {
                            let k = choose|k: int| 0 <= k < before.len() && #[trigger] before[k].0@ == n;
                            assert(self.results@[k].0@ == n);
                        }
                        assert(self.results@[i as int].0@ == name);
                        assert forall|n: Seq<char>| #[trigger] self.view().dom().contains(n) implies self.view()[n]
                            == old_view.insert(name, rv)[n] by {
                            let k = choose|k: int| 0 <= k < self.results.len() && #[trigger] self.results@[k].0@ == n;
                            if n == name {
                                assert(k == i);
                            } else {
                                let k2 = choose|k: int| 0 <= k < before.len() && #[trigger] before[k].0@ == n;
                                assert(k == k2);
                                assert(self.results@[k] == before[k]);
                            }
                        }
                    }
                }
                return;
            }
            i += 1;
        }
        self.results.push((key, result));
        proof {
            let len = self.results.len();
            assert(self.results@[len - 1].0@ == name);
            assert(self.view() =~= old_view.insert(name, rv)) by {
                assert forall|n: Seq<char>| #[trigger] self.view().dom().contains(n) implies old_view.dom().contains(n)
                    || n == name by {
                    let k = choose|k: int| 0 <= k < self.results.len() && #[trigger] self.results@[k].0@ == n;
                    if k < len - 1 {
                        assert(old(self).results@[k].0@ == n);
                    }
                }
                assert forall|n: Seq<char>| #[trigger] old_view.dom().contains(n) implies self.view().dom().contains(n) by {
                    let k = choose|k: int| 0 <= k < old(self).results.len() && #[trigger] old(self).results@[k].0@ == n;
                    assert(self.results@[k].0@ == n);
                }
                assert forall|n: Seq<char>| #[trigger] self.view().dom().contains(n) implies self.view()[n]
                    == old_view.insert(name, rv)[n] by {
                    let k = choose|k: int| 0 <= k < self.results.len() && #[trigger] self.results@[k].0@ == n;
                    if n == name {
                        assert(k == len - 1);
                    } else {
                        let k2 = choose|k: int| 0 <= k < old(self).results.len() && #[trigger] old(self).results@[k].0@ == n;
                        assert(k == k2);
                    }
                }
            }
        }
    }

    /// Records the result for file `name` once its line was sent (or not):
    /// success with a fixed output, or failure carrying the error; an earlier
    /// result under the same name is replaced. When sending failed, the
    /// returned text is to be logged and the file stays in the directory.
    pub fn finish_file(&mut self, name: &str, sent: Result<(), String>) -> (r: Option<String>)
        requires
            old(self).wf(),
        ensures
            final(self).wf(),
            sent is Ok ==> final(self).view() == old(self).view().insert(name@, (SENT_OUTPUT@, true)) && r is None,
            sent matches Err(e) ==> final(self).view() == old(self).view().insert(name@, ("Error: "@ + e@, false))
                && (r matches Some(log) && log@ == "❌ Error processing "@ + name@ + ": "@ + e@),
    {
        match sent {
            Ok(()) => {
                self.insert_result(
                    String::from_str(name),
                    CommandResult { output: String::from_str(SENT_OUTPUT), success: true },
                );
                None
            },
            Err(e) => {
                let mut output = String::from_str("Error: ");
                output.append(e.as_str());
                let mut log = String::from_str("❌ Error processing ");
                log.append(name);
                log.append(": ");
                log.append(e.as_str());
                self.insert_result(String::from_str(name), CommandResult { output, success: false });
                Some(log)
            },
        }
    }

    /// The step for file `name`, given what reading it gave: the command is
    /// the trimmed content, sent with a line feed. A read error is recorded
    /// as a failure result carrying the error, and the file is left alone.
    pub fn begin_file(&mut self, name: &str, read: Result<String, String>) -> (r: FileStep)
        requires
            old(self).wf(),
        ensures
            final(self).wf(),
            read matches Err(e) ==> final(self).view() == old(self).view().insert(name@, ("Error: "@ + e@, false))
                && (r matches FileStep::Skip { log } && log@ == "❌ Error reading queue file "@ + name@ + ": "@
                + e@),
            read matches Ok(content) ==> final(self).view() == old(self).view() && (r matches FileStep::Send {
                log,
                command,
                line,
            } && command@ == trim_ws(content@) && line@ == trim_ws(content@).push('\n') && log@
                == "🔄 Processing queue file: "@ + name@ + " -> "@ + trim_ws(content@)),
    {
        match read {
            Err(e) => {
                let mut log = String::from_str("❌ Error reading queue file ");
                log.append(name);
                log.append(": ");
                log.append(e.as_str());
                let mut output = String::from_str("Error: ");
                output.append(e.as_str());
                self.insert_result(String::from_str(name), CommandResult { output, success: false });
                FileStep::Skip { log }
            },
            Ok(content) => {
                let command = queue_command(content.as_str());
                let line = line_text(command.as_str());
                let mut log = String::from_str("🔄 Processing queue file: ");
                log.append(name);
                log.append(" -> ");
                log.append(command.as_str());
                FileStep::Send { log, command, line }
            },
        }
    }
}

} // verus!

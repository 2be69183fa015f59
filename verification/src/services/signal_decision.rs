//! The store of decisions on signals, keyed by signal.
use vstd::prelude::*;
use crate::domain::decision::{
    record_of, submission_of, DecisionSubmissionResult, SignalDecisionRecord,
    ValidatedSignalDecision,
};
use crate::http::trace_context::RequestContext;

verus! {

broadcast use vstd::string::group_string_axioms;

/// The records kept, by signal: each record in turn, a later one replacing an
/// earlier one for the same signal.
pub open spec fn records_by_signal(records: Seq<SignalDecisionRecord>) -> Map<
    Seq<char>,
    SignalDecisionRecord,
>
    decreases records.len(),
{
    if records.len() == 0 {
        Map::empty()
    } else {
        records_by_signal(records.drop_last()).insert(records.last().signal_id@, records.last())
    }
}

/// The store `store` after `decision` is submitted: the decision's record is
/// kept for its signal, in place of any other.
pub open spec fn after_submit(
    store: Map<Seq<char>, SignalDecisionRecord>,
    decision: ValidatedSignalDecision,
) -> Map<Seq<char>, SignalDecisionRecord> {
    store.insert(decision.signal_id@, record_of(decision))
}

/// The record `store` keeps for the signal `signal_id`, if any.
pub open spec fn lookup(store: Map<Seq<char>, SignalDecisionRecord>, signal_id: Seq<char>) -> Option<
    SignalDecisionRecord,
> {
    if store.contains_key(signal_id) {
        Some(store[signal_id])
    } else {
        None
    }
}

/// No two of `records` are for the same signal.
pub open spec fn distinct_signals(records: Seq<SignalDecisionRecord>) -> bool {
    forall|i: int, j: int|
        0 <= i < records.len() && 0 <= j < records.len() && i != j ==> (#[trigger] records[i]).signal_id@
            != (#[trigger] records[j]).signal_id@
}

/// A signal is kept exactly when one of the records is for it.
pub proof fn lemma_records_domain(records: Seq<SignalDecisionRecord>, id: Seq<char>)
    ensures
        records_by_signal(records).contains_key(id) <==> exists|i: int|
            0 <= i < records.len() && (#[trigger] records[i]).signal_id@ == id,
    decreases records.len(),
{
    if records.len() > 0 {
        let init = records.drop_last();
        lemma_records_domain(init, id);
        if exists|i: int| 0 <= i < init.len() && (#[trigger] init[i]).signal_id@ == id {
            let i = choose|i: int| 0 <= i < init.len() && (#[trigger] init[i]).signal_id@ == id;
            assert(records[i] == init[i]);
        }
        if exists|i: int| 0 <= i < records.len() && (#[trigger] records[i]).signal_id@ == id {
            let i = choose|i: int| 0 <= i < records.len() && (#[trigger] records[i]).signal_id@ == id;
            if i < records.len() - 1 {
                assert(init[i] == records[i]);
            }
        }
    }
}

/// Where no two records are for the same signal, the record kept for the
/// signal of the `i`-th is the `i`-th.
pub proof fn lemma_records_value(records: Seq<SignalDecisionRecord>, i: int)
    requires
        distinct_signals(records),
        0 <= i < records.len(),
    ensures
        records_by_signal(records).contains_key(records[i].signal_id@),
        records_by_signal(records)[records[i].signal_id@] == records[i],
    decreases records.len(),
{
    let init = records.drop_last();
    if i < records.len() - 1 {
        assert forall|a: int, b: int|
            0 <= a < init.len() && 0 <= b < init.len() && a != b implies (#[trigger] init[a]).signal_id@
            != (#[trigger] init[b]).signal_id@ by {
            assert(init[a] == records[a] && init[b] == records[b]);
        }
        lemma_records_value(init, i);
        assert(records[records.len() - 1].signal_id@ != records[i].signal_id@);
    }
}

/// Where no two records are for the same signal, each record kept is one of
/// the records.
pub proof fn lemma_records_entry(records: Seq<SignalDecisionRecord>, id: Seq<char>)
    requires
        distinct_signals(records),
        records_by_signal(records).contains_key(id),
    ensures
        exists|k: int|
            0 <= k < records.len() && (#[trigger] records[k]).signal_id@ == id && records_by_signal(
                records,
            )[id] == records[k],
{
    lemma_records_domain(records, id);
    let k = choose|k: int| 0 <= k < records.len() && (#[trigger] records[k]).signal_id@ == id;
    lemma_records_value(records, k);
}

/// Replacing the record for a signal by another for the same signal replaces
/// what is kept for that signal.
pub proof fn lemma_records_update(
    records: Seq<SignalDecisionRecord>,
    i: int,
    record: SignalDecisionRecord,
)
    requires
        distinct_signals(records),
        0 <= i < records.len(),
        records[i].signal_id@ == record.signal_id@,
    ensures
        records_by_signal(records.update(i, record)) =~= records_by_signal(records).insert(
            record.signal_id@,
            record,
        ),
    decreases records.len(),
{
    let updated = records.update(i, record);
    let init = records.drop_last();
    if i == records.len() - 1 {
        assert(updated.drop_last() =~= init);
    } else {
        assert(updated.drop_last() =~= init.update(i, record));
        assert forall|a: int, b: int|
            0 <= a < init.len() && 0 <= b < init.len() && a != b implies (#[trigger] init[a]).signal_id@
            != (#[trigger] init[b]).signal_id@ by {
            assert(init[a] == records[a] && init[b] == records[b]);
        }
        lemma_records_update(init, i, record);
        assert(records[records.len() - 1].signal_id@ != records[i].signal_id@);
    }
}

/// The store of decisions: at most one record per signal, the latest
/// submitted for it.
pub struct SignalDecisionService {
    records: Vec<SignalDecisionRecord>,
}

impl View for SignalDecisionService {
    type V = Map<Seq<char>, SignalDecisionRecord>;

    /// The record kept for each signal.
    closed spec fn view(&self) -> Map<Seq<char>, SignalDecisionRecord> {
        records_by_signal(self.records@)
    }
}

impl SignalDecisionService {
    #[verifier::type_invariant]
    spec fn one_record_per_signal(self) -> bool {
        distinct_signals(self.records@)
    }

    /// An empty store.
    pub fn new() -> (service: SignalDecisionService)
        ensures
            service@ == Map::<Seq<char>, SignalDecisionRecord>::empty(),
    {
        SignalDecisionService { records: Vec::new() }
    }

    /// Keeps `record` as the record for its signal, replacing any other.
    fn insert_record(&mut self, record: SignalDecisionRecord)
        ensures
            final(self)@ == old(self)@.insert(record.signal_id@, record),
    {
        proof {
            use_type_invariant(&*self);
        }
        let mut records: Vec<SignalDecisionRecord> = Vec::new();
        std::mem::swap(&mut records, &mut self.records);
        let ghost before = records@;
        let mut i: usize = 0;
        while i < records.len()
            invariant
                records@ == before,
                before == old(self).records@,
                distinct_signals(before),
                i <= records.len(),
                forall|j: int| 0 <= j < i ==> records[j].signal_id@ != record.signal_id@,
            decreases records.len() - i,
        {
            if records[i].signal_id == record.signal_id {
                proof {
                    lemma_records_update(before, i as int, record);
                    assert forall|a: int, b: int|
                        0 <= a < before.len() && 0 <= b < before.len() && a != b implies (#[trigger] before.update(i as int, record)[a]).signal_id@
                        != (#[trigger] before.update(i as int, record)[b]).signal_id@ by {
                        assert(before[a].signal_id@ != before[b].signal_id@);
                    }
                }
                records.set(i, record);
                self.records = records;
                return;
            }
            i = i + 1;
        }
        proof {
            assert forall|a: int, b: int|
                0 <= a < before.len() + 1 && 0 <= b < before.len() + 1 && a != b implies (#[trigger] before.push(record)[a]).signal_id@
                != (#[trigger] before.push(record)[b]).signal_id@ by {
                if a < before.len() && b < before.len() {
                    assert(before[a].signal_id@ != before[b].signal_id@);
                }
            }
            assert(before.push(record).drop_last() =~= before);
        }
        records.push(record);
        self.records = records;
    }

    /// A store holding `records`, read back from where they were kept: each
    /// kept in turn, a later one replacing an earlier one for the same signal.
    pub fn from_records(records: Vec<SignalDecisionRecord>) -> (service: SignalDecisionService)
        ensures
            service@ == records_by_signal(records@),
    {
        let mut service = SignalDecisionService::new();
        let mut remaining = records;
        let ghost all = remaining@;
        let mut kept: Vec<SignalDecisionRecord> = Vec::new();
        proof {
            assert(all.take(0) =~= Seq::<SignalDecisionRecord>::empty());
        }
        let mut i: usize = 0;
        let n = remaining.len();
        while i < n
            invariant
                n == all.len(),
                i <= n,
                service@ == records_by_signal(all.take(i as int)),
                remaining@ == all,
            decreases n - i,
        {
            let record = remaining[i].clone();
            proof {
                assert(all.take(i + 1).drop_last() =~= all.take(i as int));
            }
            service.insert_record(record);
            i = i + 1;
        }
        proof {
            assert(all.take(n as int) =~= all);
        }
        service
    }

    /// The records kept, one per signal.
    pub fn records(&self) -> (records: Vec<SignalDecisionRecord>)
        ensures
            records_by_signal(records@) == self@,
            distinct_signals(records@),
    {
        proof {
            use_type_invariant(self);
        }
        let mut out: Vec<SignalDecisionRecord> = Vec::new();
        let mut i: usize = 0;
        while i < self.records.len()
            invariant
                i <= self.records.len(),
                out@ == self.records@.take(i as int),
            decreases self.records.len() - i,
        {
            out.push(self.records[i].clone());
            proof {
                assert(self.records@.take(i + 1) =~= self.records@.take(i as int).push(
                    self.records@[i as int],
                ));
            }
            i = i + 1;
        }
        proof {
            assert(self.records@.take(self.records.len() as int) =~= self.records@);
        }
        out
    }

    /// Keeps the record of `decision`, received in the request `context`, as the
    /// record for its signal, and reports the submission.
    pub fn submit(&mut self, decision: &ValidatedSignalDecision, context: &RequestContext) -> (result:
        DecisionSubmissionResult)
        ensures
            final(self)@ == after_submit(old(self)@, *decision),
            submission_of(result, *decision),
    {
        self.insert_record(SignalDecisionRecord::from_decision(decision));
        DecisionSubmissionResult::from_decision(decision)
    }

    /// The record kept for the signal `signal_id`, if any.
    pub fn get_by_signal_id(&self, signal_id: &str) -> (record: Option<SignalDecisionRecord>)
        ensures
            record == lookup(self@, signal_id@),
    {
        proof {
            use_type_invariant(self);
        }
        let wanted = crate::text::owned(signal_id);
        let mut i: usize = 0;
        while i < self.records.len()
            invariant
                wanted@ == signal_id@,
                distinct_signals(self.records@),
                i <= self.records.len(),
                forall|j: int| 0 <= j < i ==> self.records[j].signal_id@ != signal_id@,
            decreases self.records.len() - i,
        {
            if self.records[i].signal_id == wanted {
                proof {
                    lemma_records_value(self.records@, i as int);
                }
                return Some(self.records[i].clone());
            }
            i = i + 1;
        }
        proof {
            lemma_records_domain(self.records@, signal_id@);
        }
        None
    }

    /// A record kept whose trace is `trace_id`, if any is.
    pub fn get_by_trace_id(&self, trace_id: &str) -> (record: Option<SignalDecisionRecord>)
        ensures
            match record {
                Some(r) => exists|id: Seq<char>|
                    self@.contains_key(id) && #[trigger] self@[id] == r && r.trace_id@ == trace_id@,
                None => forall|id: Seq<char>|
                    self@.contains_key(id) ==> (#[trigger] self@[id]).trace_id@ != trace_id@,
            },
    {
        proof {
            use_type_invariant(self);
        }
        let wanted = crate::text::owned(trace_id);
        let mut i: usize = 0;
        while i < self.records.len()
            invariant
                wanted@ == trace_id@,
                distinct_signals(self.records@),
                i <= self.records.len(),
                forall|j: int| 0 <= j < i ==> self.records[j].trace_id@ != trace_id@,
            decreases self.records.len() - i,
        {
            if self.records[i].trace_id == wanted {
                proof {
                    lemma_records_value(self.records@, i as int);
                    assert(self@[self.records@[i as int].signal_id@] == self.records@[i as int]);
                }
                return Some(self.records[i].clone());
            }
            i = i + 1;
        }
        proof {
            assert forall|id: Seq<char>| self@.contains_key(id) implies (#[trigger] self@[id]).trace_id@
                != trace_id@ by {
                lemma_records_entry(self.records@, id);
            }
        }
        None
    }

    /// A record kept whose correlation is `correlation_id`, if any is.
    pub fn get_by_correlation_id(&self, correlation_id: &str) -> (record: Option<
        SignalDecisionRecord,
    >)
        ensures
            match record {
                Some(r) => exists|id: Seq<char>|
                    self@.contains_key(id) && #[trigger] self@[id] == r && r.correlation_id@
                        == correlation_id@,
                None => forall|id: Seq<char>|
                    self@.contains_key(id) ==> (#[trigger] self@[id]).correlation_id@
                        != correlation_id@,
            },
    {
        proof {
            use_type_invariant(self);
        }
        let wanted = crate::text::owned(correlation_id);
        let mut i: usize = 0;
        while i < self.records.len()
            invariant
                wanted@ == correlation_id@,
                distinct_signals(self.records@),
                i <= self.records.len(),
                forall|j: int| 0 <= j < i ==> self.records[j].correlation_id@ != correlation_id@,
            decreases self.records.len() - i,
        {
            if self.records[i].correlation_id == wanted {
                proof {
                    lemma_records_value(self.records@, i as int);
                    assert(self@[self.records@[i as int].signal_id@] == self.records@[i as int]);
                }
                return Some(self.records[i].clone());
            }
            i = i + 1;
        }
        proof {
            assert forall|id: Seq<char>| self@.contains_key(id) implies (#[trigger] self@[
                id
            ]).correlation_id@ != correlation_id@ by {
                lemma_records_entry(self.records@, id);
            }
        }
        None
    }
}


/// A decision read back after it is submitted is the record of that decision.
pub proof fn law_read_after_submit(
    store: Map<Seq<char>, SignalDecisionRecord>,
    decision: ValidatedSignalDecision,
)
    ensures
        lookup(after_submit(store, decision), decision.signal_id@) == Some(record_of(decision)),
{
}

/// Submitting a decision leaves what is kept for every other signal as it was.
pub proof fn law_submit_keeps_other_signals(
    store: Map<Seq<char>, SignalDecisionRecord>,
    decision: ValidatedSignalDecision,
    signal_id: Seq<char>,
)
    requires
        signal_id != decision.signal_id@,
    ensures
        lookup(after_submit(store, decision), signal_id) == lookup(store, signal_id),
{
}

/// Submitting the same decision twice keeps what submitting it once keeps.
pub proof fn law_submit_idempotent(
    store: Map<Seq<char>, SignalDecisionRecord>,
    decision: ValidatedSignalDecision,
)
    ensures
        after_submit(after_submit(store, decision), decision) == after_submit(store, decision),
{
    assert(after_submit(after_submit(store, decision), decision) =~= after_submit(store, decision));
}

/// Of two decisions on the same signal, the one submitted last is kept.
pub proof fn law_last_submission_wins(
    store: Map<Seq<char>, SignalDecisionRecord>,
    first: ValidatedSignalDecision,
    second: ValidatedSignalDecision,
)
    requires
        first.signal_id@ == second.signal_id@,
    ensures
        after_submit(after_submit(store, first), second) == after_submit(store, second),
{
    assert(after_submit(after_submit(store, first), second) =~= after_submit(store, second));
}

/// Records read back from where a store kept them (one per signal) give back
/// each of them for its signal, and nothing for any other signal.
pub proof fn law_restored_records_found(records: Seq<SignalDecisionRecord>, signal_id: Seq<char>)
    requires
        distinct_signals(records),
    ensures
        forall|i: int|
            0 <= i < records.len() ==> lookup(records_by_signal(records), (#[trigger] records[i]).signal_id@)
                == Some(records[i]),
        lookup(records_by_signal(records), signal_id) is None <==> forall|i: int|
            0 <= i < records.len() ==> (#[trigger] records[i]).signal_id@ != signal_id,
{
    assert forall|i: int| 0 <= i < records.len() implies lookup(
        records_by_signal(records),
        (#[trigger] records[i]).signal_id@,
    ) == Some(records[i]) by {
        lemma_records_value(records, i);
    }
    lemma_records_domain(records, signal_id);
}

} // verus!

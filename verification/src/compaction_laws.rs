//! What holds of answers that make a context shorter.
use crate::stream;
use crate::stream::{Compaction, CompactionEvent};
use vstd::prelude::*;
use vstd::string::*;

verus! {

proof fn lemma_contexts_in_turn<C, U>(
    a: Seq<CompactionEvent<C, U>>,
    b: Seq<CompactionEvent<C, U>>,
)
    ensures
        stream::contexts(a + b) == stream::contexts(a) + stream::contexts(b),
    decreases b.len(),
{
    if b.len() == 0 {
        assert(a + b =~= a);
        assert(stream::contexts(a) + stream::contexts(b) =~= stream::contexts(a));
    } else {
        assert((a + b).drop_last() =~= a + b.drop_last());
        lemma_contexts_in_turn(a, b.drop_last());
        assert(stream::contexts(a + b) =~= stream::contexts(a) + stream::contexts(b));
    }
}

proof fn lemma_no_context<C, U>(events: Seq<CompactionEvent<C, U>>)
    requires
        forall|i: int| 0 <= i < events.len() ==> !((#[trigger] events[i]) is Finished),
    ensures
        stream::contexts(events).len() == 0,
    decreases events.len(),
{
    if events.len() > 0 {
        let shorter = events.drop_last();
        assert forall|i: int| 0 <= i < shorter.len() implies !((#[trigger] shorter[i])
            is Finished) by {
            assert(shorter[i] == events[i]);
        }
        lemma_no_context(shorter);
        assert(!(events[events.len() - 1] is Finished));
    }
}

proof fn lemma_context_counts<C, U>(events: Seq<CompactionEvent<C, U>>, k: int, context: C)
    requires
        0 <= k < events.len(),
        events[k] == CompactionEvent::<C, U>::Finished(context),
    ensures
        stream::contexts(events) == stream::contexts(events.take(k)) + seq![context]
            + stream::contexts(events.skip(k + 1)),
{
    let one = seq![events[k]];
    assert(events =~= events.take(k) + one + events.skip(k + 1));
    lemma_contexts_in_turn(events.take(k) + one, events.skip(k + 1));
    lemma_contexts_in_turn(events.take(k), one);
    assert(one.drop_last() =~= Seq::<CompactionEvent<C, U>>::empty());
    assert(stream::contexts(one.drop_last()) =~= Seq::<C>::empty());
    assert(stream::contexts(one) =~= seq![context]);
}

proof fn lemma_last_usage<C, U>(events: Seq<CompactionEvent<C, U>>, before: U, m: int, usage: U)
    requires
        -1 <= m < events.len(),
        m >= 0 ==> events[m] == CompactionEvent::<C, U>::Usage(usage),
        m < 0 ==> usage == before,
        forall|i: int| m < i < events.len() ==> !((#[trigger] events[i]) is Usage),
    ensures
        stream::last_usage(events, before) == usage,
    decreases events.len(),
{
    if events.len() > 0 && m < events.len() - 1 {
        let shorter = events.drop_last();
        assert(!(events[events.len() - 1] is Usage));
        assert forall|i: int| m < i < shorter.len() implies !((#[trigger] shorter[i]) is Usage) by {
            assert(shorter[i] == events[i]);
        }
        lemma_last_usage(shorter, before, m, usage);
    }
}

/// An answer with one shorter context gives that one, and the last count of tokens that came, else
/// the count at the start.
pub proof fn only_context_is_given<C, U>(
    start: U,
    events: Vec<CompactionEvent<C, U>>,
    r: Result<(C, U), String>,
    k: int,
    context: C,
    m: int,
    usage: U,
)
    requires
        call_ensures(Compaction::<C, U>::collect, (start, events), r),
        0 <= k < events@.len(),
        events@[k] == CompactionEvent::<C, U>::Finished(context),
        forall|i: int|
            0 <= i < events@.len() && i != k ==> !((#[trigger] events@[i]) is Finished),
        -1 <= m < events@.len(),
        m >= 0 ==> events@[m] == CompactionEvent::<C, U>::Usage(usage),
        m < 0 ==> usage == start,
        forall|i: int| m < i < events@.len() ==> !((#[trigger] events@[i]) is Usage),
    ensures
        r == Ok::<(C, U), String>((context, usage)),
{
    let before = events@.take(k);
    let after = events@.skip(k + 1);
    lemma_context_counts(events@, k, context);
    assert forall|i: int| 0 <= i < before.len() implies !((#[trigger] before[i]) is Finished) by {
        assert(before[i] == events@[i]);
    }
    assert forall|i: int| 0 <= i < after.len() implies !((#[trigger] after[i]) is Finished) by {
        assert(after[i] == events@[i + k + 1]);
    }
    lemma_no_context(before);
    lemma_no_context(after);
    lemma_last_usage(events@, start, m, usage);
    assert(stream::contexts(events@) =~= seq![context]);
    assert(seq![context][0] == context);
}

/// An answer without a shorter context fails, and so does one with several.
pub proof fn answers_need_one_context<C, U>(
    start: U,
    events: Vec<CompactionEvent<C, U>>,
    r: Result<(C, U), String>,
    i: int,
    j: int,
)
    requires
        call_ensures(Compaction::<C, U>::collect, (start, events), r),
    ensures
        (forall|n: int| 0 <= n < events@.len() ==> !((#[trigger] events@[n]) is Finished)) ==> (r
            matches Err(message) && message@
            == "ChatGPT subscription compaction returned no replacement context"@),
        0 <= i < j < events@.len() && events@[i] is Finished && events@[j] is Finished ==> (r
            matches Err(message) && message@
            == "ChatGPT subscription compaction returned multiple replacement contexts"@),
{
    if forall|n: int| 0 <= n < events@.len() ==> !((#[trigger] events@[n]) is Finished) {
        lemma_no_context(events@);
    }
    if 0 <= i < j < events@.len() && events@[i] is Finished && events@[j] is Finished {
        lemma_context_counts(events@, i, events@[i]->Finished_0);
        let after = events@.skip(i + 1);
        assert(after[j - i - 1] == events@[j]);
        lemma_context_counts(after, j - i - 1, events@[j]->Finished_0);
        assert(stream::contexts(events@).len() >= 2);
        if let Ok((context, _)) = r {
            assert(seq![context].len() == 1);
        }
    }
}

/// One event at a time: a context is kept and a second one refused, a count of tokens replaces the
/// one before, and nothing else matters. At the end there has to be a context.
pub proof fn events_are_taken_in<C, U>(
    compaction: &mut Compaction<C, U>,
    event: CompactionEvent<C, U>,
    r: Result<(), String>,
    whole: Compaction<C, U>,
    end: Result<(C, U), String>,
)
    requires
        call_ensures(Compaction::<C, U>::accept, (compaction, event), r),
        call_ensures(Compaction::<C, U>::finish, (whole,), end),
    ensures
        event matches CompactionEvent::Finished(context) ==> final(compaction).context == Some(
            context,
        ) && final(compaction).usage == old(compaction).usage && (r is Ok == (old(compaction).context is None)),
        event matches CompactionEvent::Usage(usage) ==> final(compaction).usage == usage && final(compaction).context == old(compaction).context && r is Ok,
        event is Other ==> *final(compaction) == *old(compaction) && r is Ok,
        whole.context matches Some(context) ==> end == Ok::<(C, U), String>((context, whole.usage)),
        whole.context is None ==> end is Err,
{
}

} // verus!

//! The ids under which tool calls and their outputs find each other.
//!
//! A call without an id is given one, and the next output without an id answers it.
use std::collections::VecDeque;
use vstd::prelude::*;

use crate::text::{blank, decimal, decimal_text, is_blank, law_decimal_injective, texts, white_space};

verus! {

/// The ids that were made and not used by an output yet, the oldest first, and the number of the
/// next id to make.
#[verifier::ext_equal]
pub struct CallIdsView {
    pub pending: Seq<Seq<char>>,
    pub next: nat,
}

/// The id with a number.
pub open spec fn generated_id(n: nat) -> Seq<char> {
    "call_proxy_"@ + decimal(n)
}

/// Whether an id is made for a call: where it came with a blank one.
pub open spec fn makes_call_id(id: Seq<char>) -> bool {
    blank(id)
}

/// Whether an id is made for an output: where it came with a blank one, and none waits.
pub open spec fn makes_output_id(id: Seq<char>, pending: Seq<Seq<char>>) -> bool {
    blank(id) && pending.len() == 0
}

/// The id of a call: the one that it came with, or, where that is blank, a new one.
pub open spec fn call_id_for(id: Seq<char>, ids: CallIdsView) -> Seq<char> {
    if blank(id) {
        generated_id(ids.next)
    } else {
        id
    }
}

/// The ids after a call: one that was made for it waits for its output.
pub open spec fn after_call(id: Seq<char>, ids: CallIdsView) -> CallIdsView {
    if blank(id) {
        CallIdsView { pending: ids.pending.push(generated_id(ids.next)), next: ids.next + 1 }
    } else {
        ids
    }
}

/// The id of an output: the one that it came with, or, where that is blank, the one that has waited
/// longest, or, where none waits, a new one.
pub open spec fn output_id_for(id: Seq<char>, ids: CallIdsView) -> Seq<char> {
    if !blank(id) {
        id
    } else if ids.pending.len() > 0 {
        ids.pending.first()
    } else {
        generated_id(ids.next)
    }
}

/// The ids after an output: the one that it took waits no more.
pub open spec fn after_output(id: Seq<char>, ids: CallIdsView) -> CallIdsView {
    if !blank(id) {
        ids
    } else if ids.pending.len() > 0 {
        CallIdsView { pending: ids.pending.drop_first(), next: ids.next }
    } else {
        CallIdsView { pending: ids.pending, next: ids.next + 1 }
    }
}

/// The ids as they are kept: a queue and a counter.
pub open spec fn call_ids(pending: VecDeque<String>, next: usize) -> CallIdsView {
    CallIdsView { pending: texts(pending@), next: next as nat }
}

/// Makes the next id.
pub fn next_generated_tool_call_id(generated_call_id_counter: &mut usize) -> (id: String)
    requires
        *old(generated_call_id_counter) < usize::MAX,
    ensures
        id@ == generated_id(*old(generated_call_id_counter) as nat),
        *final(generated_call_id_counter) == *old(generated_call_id_counter) + 1,
{
    let mut id = "call_proxy_".to_string();
    id.append(decimal_text(*generated_call_id_counter).as_str());
    *generated_call_id_counter = *generated_call_id_counter + 1;
    id
}

/// The id of a call. One that is made for it is put down, to be taken by its output.
pub fn normalize_tool_call_id(
    call_id: &str,
    pending_generated_call_ids: &mut VecDeque<String>,
    generated_call_id_counter: &mut usize,
) -> (id: String)
    requires
        makes_call_id(call_id@) ==> *old(generated_call_id_counter) < usize::MAX,
    ensures
        id@ == call_id_for(call_id@, call_ids(*old(pending_generated_call_ids), *old(generated_call_id_counter))),
        call_ids(*final(pending_generated_call_ids), *final(generated_call_id_counter)) == after_call(
            call_id@,
            call_ids(*old(pending_generated_call_ids), *old(generated_call_id_counter)),
        ),
{
    if !is_blank(call_id) {
        return call_id.to_string();
    }
    let generated = next_generated_tool_call_id(generated_call_id_counter);
    pending_generated_call_ids.push_back(generated.clone());
    proof {
        assert(texts(pending_generated_call_ids@) =~= texts(old(pending_generated_call_ids)@).push(generated@));
    }
    generated
}

/// The id of an output.
pub fn normalize_tool_output_call_id(
    call_id: &str,
    pending_generated_call_ids: &mut VecDeque<String>,
    generated_call_id_counter: &mut usize,
) -> (id: String)
    requires
        makes_output_id(call_id@, texts(old(pending_generated_call_ids)@)) ==> *old(generated_call_id_counter)
            < usize::MAX,
    ensures
        id@ == output_id_for(call_id@, call_ids(*old(pending_generated_call_ids), *old(generated_call_id_counter))),
        call_ids(*final(pending_generated_call_ids), *final(generated_call_id_counter)) == after_output(
            call_id@,
            call_ids(*old(pending_generated_call_ids), *old(generated_call_id_counter)),
        ),
{
    if !is_blank(call_id) {
        return call_id.to_string();
    }
    match pending_generated_call_ids.pop_front() {
        Some(id) => {
            proof {
                assert(texts(pending_generated_call_ids@) =~= texts(old(pending_generated_call_ids)@).drop_first());
            }
            id
        },
        None => next_generated_tool_call_id(generated_call_id_counter),
    }
}

/// Ids with different numbers are different.
pub proof fn law_generated_ids_distinct(m: nat, n: nat)
    requires
        m != n,
    ensures
        generated_id(m) != generated_id(n),
{
    if generated_id(m) == generated_id(n) {
        let prefix = "call_proxy_"@;
        assert(decimal(m) =~= generated_id(m).skip(prefix.len() as int));
        assert(decimal(n) =~= generated_id(n).skip(prefix.len() as int));
        law_decimal_injective(m, n);
    }
}

/// An id that is made is never blank.
pub proof fn law_generated_id_not_blank(n: nat)
    ensures
        !blank(generated_id(n)),
{
    reveal_strlit("call_proxy_");
    assert(generated_id(n)[0] == 'c');
    assert(!white_space(generated_id(n)[0]));
}

/// What holds of the ids at all times: those that wait are the last that were made, in the order in
/// which they were made.
pub open spec fn ids_in_order(ids: CallIdsView) -> bool {
    &&& ids.pending.len() <= ids.next
    &&& forall|i: int|
        0 <= i < ids.pending.len() ==> #[trigger] ids.pending[i] == generated_id(
            (ids.next - ids.pending.len() + i) as nat,
        )
}

/// Before any call or output no id was made.
pub open spec fn no_ids() -> CallIdsView {
    CallIdsView { pending: Seq::empty(), next: 0 }
}

/// A call or an output, with the id that it came with.
pub enum IdEvent {
    Call(Seq<char>),
    Output(Seq<char>),
}

/// The ids after a call or an output.
pub open spec fn after_event(event: IdEvent, ids: CallIdsView) -> CallIdsView {
    match event {
        IdEvent::Call(id) => after_call(id, ids),
        IdEvent::Output(id) => after_output(id, ids),
    }
}

/// The ids after a number of calls and outputs.
pub open spec fn after_events(events: Seq<IdEvent>, ids: CallIdsView) -> CallIdsView
    decreases events.len(),
{
    if events.len() == 0 {
        ids
    } else {
        after_events(events.drop_first(), after_event(events.first(), ids))
    }
}

/// Whether a call or an output is an output without an id.
pub open spec fn takes_id(event: IdEvent) -> bool {
    event is Output && blank(event->Output_0)
}

/// How many outputs without an id there are.
pub open spec fn ids_taken(events: Seq<IdEvent>) -> nat
    decreases events.len(),
{
    if events.len() == 0 {
        0
    } else {
        ids_taken(events.drop_first()) + if takes_id(events.first()) {
            1nat
        } else {
            0nat
        }
    }
}

/// Whatever calls and outputs come, the ids that wait are the last that were made, in order.
pub proof fn law_ids_stay_in_order(events: Seq<IdEvent>, ids: CallIdsView)
    requires
        ids_in_order(ids),
    ensures
        ids_in_order(after_events(events, ids)),
    decreases events.len(),
{
    if events.len() > 0 {
        law_ids_stay_in_order(events.drop_first(), after_event(events.first(), ids));
    }
}

/// It is so from the start.
pub proof fn law_ids_start_in_order()
    ensures
        ids_in_order(no_ids()),
{
}

proof fn lemma_next_grows(events: Seq<IdEvent>, ids: CallIdsView)
    ensures
        after_events(events, ids).next >= ids.next,
    decreases events.len(),
{
    if events.len() > 0 {
        lemma_next_grows(events.drop_first(), after_event(events.first(), ids));
    }
}

/// No id is made twice: a call without an id is given another one than every such call before it,
/// whatever came in between.
pub proof fn law_call_ids_unique(first: Seq<char>, events: Seq<IdEvent>, second: Seq<char>, ids: CallIdsView)
    requires
        blank(first),
        blank(second),
    ensures
        call_id_for(first, ids) != call_id_for(second, after_events(events, after_call(first, ids))),
{
    lemma_next_grows(events, after_call(first, ids));
    law_generated_ids_distinct(ids.next, after_events(events, after_call(first, ids)).next);
}

proof fn lemma_waiting_id_is_taken(events: Seq<IdEvent>, ids: CallIdsView, place: int)
    requires
        0 <= place < ids.pending.len(),
        ids_taken(events) == place,
    ensures
        after_events(events, ids).pending.len() > 0,
        after_events(events, ids).pending.first() == ids.pending[place],
    decreases events.len(),
{
    if events.len() > 0 {
        let next = after_event(events.first(), ids);
        if takes_id(events.first()) {
            lemma_waiting_id_is_taken(events.drop_first(), next, place - 1);
        } else {
            lemma_waiting_id_is_taken(events.drop_first(), next, place);
        }
    }
}

/// A call without an id is answered by the output without an id whose turn it is: when as many
/// outputs have taken an id as had been waiting before the call, the next one takes the id that was
/// made for the call.
pub proof fn law_output_answers_call(call: Seq<char>, events: Seq<IdEvent>, output: Seq<char>, ids: CallIdsView)
    requires
        blank(call),
        blank(output),
        ids_taken(events) == ids.pending.len(),
    ensures
        output_id_for(output, after_events(events, after_call(call, ids))) == call_id_for(call, ids),
{
    lemma_waiting_id_is_taken(events, after_call(call, ids), ids.pending.len() as int);
}

/// Calls, with the ids that they came with.
pub open spec fn calls(ids: Seq<Seq<char>>) -> Seq<IdEvent> {
    ids.map_values(|id: Seq<char>| IdEvent::Call(id))
}

/// Outputs, with the ids that they came with.
pub open spec fn outputs(ids: Seq<Seq<char>>) -> Seq<IdEvent> {
    ids.map_values(|id: Seq<char>| IdEvent::Output(id))
}

/// Whether every one of several ids is blank.
pub open spec fn all_blank(ids: Seq<Seq<char>>) -> bool {
    forall|i: int| 0 <= i < ids.len() ==> blank(#[trigger] ids[i])
}

proof fn lemma_blank_calls(given: Seq<Seq<char>>, ids: CallIdsView)
    requires
        all_blank(given),
    ensures
        after_events(calls(given), ids).next == ids.next + given.len(),
        after_events(calls(given), ids).pending == ids.pending + Seq::new(
            given.len(),
            |i: int| generated_id((ids.next + i) as nat),
        ),
    decreases given.len(),
{
    let made = Seq::new(given.len(), |i: int| generated_id((ids.next + i) as nat));
    if given.len() == 0 {
        assert(ids.pending + made =~= ids.pending);
    } else {
        let rest = given.drop_first();
        let next = after_call(given.first(), ids);
        assert(blank(given[0]));
        assert forall|i: int| 0 <= i < rest.len() implies blank(#[trigger] rest[i]) by {
            assert(blank(given[i + 1]));
        }
        assert(calls(given).drop_first() =~= calls(rest));
        lemma_blank_calls(rest, next);
        assert(next.pending + Seq::new(rest.len(), |i: int| generated_id((next.next + i) as nat)) =~= ids.pending
            + made);
    }
}

proof fn lemma_blank_outputs(given: Seq<Seq<char>>, ids: CallIdsView)
    requires
        all_blank(given),
        given.len() <= ids.pending.len(),
    ensures
        after_events(outputs(given), ids).next == ids.next,
        after_events(outputs(given), ids).pending == ids.pending.skip(given.len() as int),
    decreases given.len(),
{
    if given.len() == 0 {
        assert(ids.pending.skip(0) =~= ids.pending);
    } else {
        let rest = given.drop_first();
        let next = after_output(given.first(), ids);
        assert(blank(given[0]));
        assert forall|i: int| 0 <= i < rest.len() implies blank(#[trigger] rest[i]) by {
            assert(blank(given[i + 1]));
        }
        assert(outputs(given).drop_first() =~= outputs(rest));
        lemma_blank_outputs(rest, next);
        assert(next.pending.skip(rest.len() as int) =~= ids.pending.skip(given.len() as int));
    }
}

/// First in, first out: where no id waits, and calls without an id are followed by as many outputs
/// without one, each output takes the id of the call in its place. In the end none waits, and the
/// outputs have made none.
pub proof fn law_first_in_first_out(called: Seq<Seq<char>>, given: Seq<Seq<char>>, ids: CallIdsView)
    requires
        ids.pending.len() == 0,
        called.len() == given.len(),
        all_blank(called),
        all_blank(given),
    ensures
        ({
            let waiting = after_events(calls(called), ids);
            let answered = after_events(outputs(given), waiting);
            &&& forall|i: int|
                0 <= i < called.len() ==> output_id_for(
                    #[trigger] given[i],
                    after_events(outputs(given.take(i)), waiting),
                ) == call_id_for(called[i], after_events(calls(called.take(i)), ids))
            &&& answered.pending.len() == 0
            &&& answered.next == waiting.next
        }),
{
    let waiting = after_events(calls(called), ids);
    lemma_blank_calls(called, ids);
    lemma_blank_outputs(given, waiting);
    assert forall|i: int| 0 <= i < called.len() implies output_id_for(
        #[trigger] given[i],
        after_events(outputs(given.take(i)), waiting),
    ) == call_id_for(called[i], after_events(calls(called.take(i)), ids)) by {
        assert(blank(called[i]));
        assert forall|k: int| 0 <= k < i implies blank(#[trigger] called.take(i)[k]) by {
            assert(blank(called[k]));
        }
        assert forall|k: int| 0 <= k < i implies blank(#[trigger] given.take(i)[k]) by {
            assert(blank(given[k]));
        }
        lemma_blank_calls(called.take(i), ids);
        lemma_blank_outputs(given.take(i), waiting);
    }
}

/// No call and no output is left without an id that says something.
pub proof fn law_ids_not_blank(id: Seq<char>, ids: CallIdsView)
    requires
        ids_in_order(ids),
    ensures
        !blank(call_id_for(id, ids)),
        !blank(output_id_for(id, ids)),
{
    law_generated_id_not_blank(ids.next);
    if ids.pending.len() > 0 {
        law_generated_id_not_blank((ids.next - ids.pending.len()) as nat);
    }
}

} // verus!

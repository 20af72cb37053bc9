//! The laws of the fact bucket, stated over the same spec functions the
//! public contracts use and proved once for every input.

use vstd::prelude::*;
use vstd::multiset::Multiset;
use crate::command::{spec_parse, SpecCommand};
use crate::handler::{add_valid, rows_of, store_after};
use crate::store::{sample_len, with_topic, FactRow};
use crate::text::{is_space, lemma_tokens_of_join, lemma_tokens_wf, spec_join, spec_tokens};

verus! {

/// A submultiset of the same size is the whole multiset.
pub proof fn lemma_subset_same_len<V>(a: Multiset<V>, b: Multiset<V>)
    requires
        a.subset_of(b),
        a.len() == b.len(),
    ensures
        a =~= b,
{
    broadcast use vstd::multiset::group_multiset_axioms;

    assert(b.sub(a).len() == 0);
    assert forall|v: V| a.count(v) == b.count(v) by {
        assert(b.sub(a).count(v) <= b.sub(a).len());
    }
}

/// The fact words of a parsed `add` are tokens of the message itself:
/// non-empty and free of whitespace, as is its topic.
pub proof fn lemma_parsed_add_wf(s: Seq<char>)
    ensures
        spec_parse_add_wf(spec_parse(s)),
{
    lemma_tokens_wf(s);
}

/// Well-formedness of an `add` command's pieces: a non-empty, space-free
/// topic and non-empty, space-free fact words.
pub open spec fn spec_parse_add_wf(c: SpecCommand) -> bool {
    c matches SpecCommand::Add { topic, fact } ==> {
        &&& topic.len() > 0
        &&& forall|j: int| 0 <= j < topic.len() ==> !is_space(#[trigger] topic[j])
        &&& forall|i: int| 0 <= i < fact.len() ==> (#[trigger] fact[i]).len() > 0
        &&& forall|i: int, j: int|
            0 <= i < fact.len() && 0 <= j < fact[i].len() ==> !is_space(#[trigger] fact[i][j])
    }
}

/// A valid `add` stores its fact verbatim: the store gains exactly the row
/// `(topic, fact words joined by single spaces, id)`, that row is among the
/// topic's facts, and tokenizing the stored text gives back the fact words.
pub proof fn lemma_add_stores_verbatim(
    m: Multiset<FactRow>,
    topic: Seq<char>,
    fact: Seq<Seq<char>>,
    id: u64,
)
    requires
        add_valid(topic, fact),
        forall|i: int| 0 <= i < fact.len() ==> (#[trigger] fact[i]).len() > 0,
        forall|i: int, j: int|
            0 <= i < fact.len() && 0 <= j < fact[i].len() ==> !is_space(#[trigger] fact[i][j]),
    ensures
        store_after(m, SpecCommand::Add { topic, fact }, id) == m.insert(
            (topic, spec_join(fact), id),
        ),
        with_topic(store_after(m, SpecCommand::Add { topic, fact }, id), topic).contains(
            (topic, spec_join(fact), id),
        ),
        spec_tokens(spec_join(fact)) == fact,
{
    broadcast use vstd::multiset::group_multiset_axioms;

    lemma_tokens_of_join(fact);
    let row = (topic, spec_join(fact), id);
    let after = m.insert(row);
    assert(after.count(row) == m.count(row) + 1);
    assert(with_topic(after, topic).count(row) == after.count(row));
}

/// Every stored fact is non-degenerate: its topic and its text are
/// non-empty.
pub open spec fn wf_store(m: Multiset<FactRow>) -> bool {
    forall|f: FactRow| #[trigger] m.contains(f) ==> f.0.len() > 0 && f.1.len() > 0
}

/// Joined fact words are never empty text.
pub proof fn lemma_join_nonempty(fact: Seq<Seq<char>>)
    requires
        fact.len() > 0,
        forall|i: int| 0 <= i < fact.len() ==> (#[trigger] fact[i]).len() > 0,
    ensures
        spec_join(fact).len() > 0,
{
}

/// Commands preserve the store invariant: whatever message arrives, every
/// row of the store after it still has a non-empty topic and text.
pub proof fn lemma_commands_preserve_wf(m: Multiset<FactRow>, s: Seq<char>, id: u64)
    requires
        wf_store(m),
    ensures
        wf_store(store_after(m, spec_parse(s), id)),
{
    broadcast use vstd::multiset::group_multiset_axioms;

    lemma_tokens_wf(s);
    let after = store_after(m, spec_parse(s), id);
    match spec_parse(s) {
        SpecCommand::Add { topic, fact } => {
            if add_valid(topic, fact) {
                lemma_join_nonempty(fact);
                let row = (topic, spec_join(fact), id);
                assert forall|f: FactRow| #[trigger] after.contains(f) implies f.0.len() > 0
                    && f.1.len() > 0 by {
                    if f != row {
                        assert(m.contains(f));
                    }
                }
            }
        },
        SpecCommand::Del { id: del_id } => {
            assert forall|f: FactRow| #[trigger] after.contains(f) implies f.0.len() > 0
                && f.1.len() > 0 by {
                assert(m.contains(f));
            }
        },
        _ => {},
    }
}

/// A lookup that returns as many rows as the topic has facts (at most
/// seven) returns exactly the topic's facts, each with its multiplicity.
pub proof fn lemma_lookup_complete(
    m: Multiset<FactRow>,
    topic: Seq<char>,
    rows: Seq<(Seq<char>, u64)>,
)
    requires
        rows_of(topic, rows).subset_of(with_topic(m, topic)),
        rows.len() == sample_len(with_topic(m, topic).len()),
        with_topic(m, topic).len() <= 7,
    ensures
        rows_of(topic, rows) =~= with_topic(m, topic),
{
    broadcast use vstd::seq_lib::group_seq_lib_default, vstd::multiset::group_multiset_axioms;

    let mapped = rows.map_values(|p: (Seq<char>, u64)| (topic, p.0, p.1));
    mapped.to_multiset_ensures();
    assert(rows_of(topic, rows).len() == rows.len());
    lemma_subset_same_len(rows_of(topic, rows), with_topic(m, topic));
}

} // verus!

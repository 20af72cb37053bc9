//! The dispatcher: runs one parsed command against the fact store and
//! formats the reply, exactly as the command grammar promises.

use vstd::prelude::*;
use vstd::multiset::Multiset;
use crate::command::{
    parse_command, spec_parse, Command, SpecCommand, MAX_FACT_TOKENS, MAX_TOPIC_CHARS,
};
use crate::num::{spec_decimal, u64_to_string};
use crate::store::{sample_len, with_topic, without_id, FactRow, FactStore, StoreError};
use crate::text::{join_spaces, spec_join};

verus! {

/// An `add` is accepted when the topic has at most 32 characters and the
/// fact at most 256 words.
pub open spec fn add_valid(topic: Seq<char>, fact: Seq<Seq<char>>) -> bool {
    topic.len() <= MAX_TOPIC_CHARS as int && fact.len() <= MAX_FACT_TOKENS as int
}

/// The fixed usage reply of `help`.
pub open spec fn help_text() -> Seq<char> {
    "commands:\nbucket ping - bot will reply with 'Pong!'\nbucket add <topic> is <fact> - adds a fact\nbucket random - shows a random fact\nbucket flush - writes the database out to disk\nbucket [get] topic - shows facts on a topic\nbucket del <id> - deletes a fact"@
}

/// The reply of `random` for a stored fact: ` - {topic} is {text}`.
pub open spec fn random_reply(topic: Seq<char>, text: Seq<char>) -> Seq<char> {
    " - "@ + topic + " is "@ + text
}

/// One line of a topic lookup reply: ` - {topic} is {text} ({id})`, ended
/// with a line break.
pub open spec fn fact_line(topic: Seq<char>, text: Seq<char>, id: u64) -> Seq<char> {
    " - "@ + topic + " is "@ + text + " ("@ + spec_decimal(id as nat) + ")\n"@
}

/// The lines of a topic lookup reply, one per returned `(text, id)` row.
pub open spec fn fact_lines(topic: Seq<char>, rows: Seq<(Seq<char>, u64)>) -> Seq<char>
    decreases rows.len(),
{
    if rows.len() == 0 {
        Seq::empty()
    } else {
        fact_line(topic, rows[0].0, rows[0].1) + fact_lines(topic, rows.skip(1))
    }
}

/// The full topic lookup reply: a count header over one line per row.
pub open spec fn lookup_reply(topic: Seq<char>, rows: Seq<(Seq<char>, u64)>) -> Seq<char> {
    "Bucket has "@ + spec_decimal(rows.len()) + " facts:\n"@ + fact_lines(topic, rows)
}

/// The store contents after a command: `add` of a valid fact inserts its one
/// row, `del` removes the rows with its identifier, everything else leaves
/// the store as it was.
pub open spec fn store_after(m: Multiset<FactRow>, c: SpecCommand, id: u64) -> Multiset<FactRow> {
    match c {
        SpecCommand::Add { topic, fact } => if add_valid(topic, fact) {
            m.insert((topic, spec_join(fact), id))
        } else {
            m
        },
        SpecCommand::Del { id: del_id } => without_id(m, del_id),
        _ => m,
    }
}

/// The reply owed for a command against store contents `m`: `None` is
/// silence. `random` replies with some stored fact, a topic lookup with a
/// listing of a large enough random sample of the topic's facts.
pub open spec fn reply_spec(m: Multiset<FactRow>, c: SpecCommand, rep: Option<Seq<char>>) -> bool {
    match c {
        SpecCommand::Ignore => rep is None,
        SpecCommand::Add { topic, fact } => if add_valid(topic, fact) {
            rep is None
        } else {
            rep == Some("hey, no books!"@)
        },
        SpecCommand::Del { .. } => rep is None,
        SpecCommand::Ping => rep == Some("Pong!"@),
        SpecCommand::Help => rep == Some(help_text()),
        SpecCommand::Flush => rep is None,
        SpecCommand::Random => if m.len() == 0 {
            rep == Some("No facts to show"@)
        } else {
            exists|f: FactRow| #[trigger] m.contains(f) && rep == Some(random_reply(f.0, f.1))
        },
        SpecCommand::Lookup { topic } => if with_topic(m, topic).len() == 0 {
            rep == Some("no facts on that topic :("@)
        } else {
            exists|rows: Seq<(Seq<char>, u64)>|
                {
                    &&& rows.len() == sample_len(with_topic(m, topic).len())
                    &&& (#[trigger] rows_of(topic, rows)).subset_of(with_topic(m, topic))
                    &&& rep == Some(lookup_reply(topic, rows))
                }
        },
    }
}

/// The matching rows a lookup reply lists, as full `(topic, text, id)` rows.
pub open spec fn rows_of(topic: Seq<char>, rows: Seq<(Seq<char>, u64)>) -> Multiset<FactRow> {
    rows.map_values(|p: (Seq<char>, u64)| (topic, p.0, p.1)).to_multiset()
}

/// Whether a command needs the storage layer at all. One that does not can
/// never fail.
pub open spec fn touches_store(c: SpecCommand) -> bool {
    match c {
        SpecCommand::Ignore => false,
        SpecCommand::Ping => false,
        SpecCommand::Help => false,
        SpecCommand::Add { topic, fact } => add_valid(topic, fact),
        _ => true,
    }
}

/// The view of an optional reply.
pub open spec fn opt_text(o: Option<String>) -> Option<Seq<char>> {
    match o {
        Some(s) => Some(s@),
        None => None,
    }
}

fn random_reply_exec(topic: &str, text: &str) -> (r: String)
    ensures
        r@ == random_reply(topic@, text@),
{
    let mut r = " - ".to_owned();
    r.append(topic);
    r.append(" is ");
    r.append(text);
    proof {
        assert(r@ =~= random_reply(topic@, text@));
    }
    r
}

fn fact_line_exec(topic: &str, text: &str, id: u64) -> (r: String)
    ensures
        r@ == fact_line(topic@, text@, id),
{
    let mut r = " - ".to_owned();
    r.append(topic);
    r.append(" is ");
    r.append(text);
    r.append(" (");
    let digits = u64_to_string(id);
    r.append(digits.as_str());
    r.append(")\n");
    proof {
        assert(r@ =~= fact_line(topic@, text@, id));
    }
    r
}

/// Appending one more row appends its one line.
proof fn lemma_fact_lines_push(topic: Seq<char>, rows: Seq<(Seq<char>, u64)>, p: (Seq<char>, u64))
    ensures
        fact_lines(topic, rows.push(p)) == fact_lines(topic, rows) + fact_line(topic, p.0, p.1),
    decreases rows.len(),
{
    if rows.len() == 0 {
        let e = Seq::<(Seq<char>, u64)>::empty();
        assert(rows.push(p)[0] == p);
        assert(rows.push(p).skip(1) =~= e);
        assert(rows =~= e);
        assert(fact_lines(topic, e) =~= Seq::<char>::empty());
        assert(fact_lines(topic, rows.push(p)) == fact_line(topic, p.0, p.1) + fact_lines(
            topic,
            rows.push(p).skip(1),
        ));
        assert(fact_lines(topic, rows.push(p)) =~= fact_lines(topic, rows) + fact_line(
            topic,
            p.0,
            p.1,
        ));
    } else {
        assert(rows.push(p)[0] == rows[0]);
        assert(rows.push(p).skip(1) =~= rows.skip(1).push(p));
        lemma_fact_lines_push(topic, rows.skip(1), p);
        assert(fact_lines(topic, rows.push(p)) =~= fact_lines(topic, rows) + fact_line(
            topic,
            p.0,
            p.1,
        ));
    }
}

fn lookup_reply_exec(topic: &str, rows: &Vec<(String, u64)>) -> (r: String)
    ensures
        r@ == lookup_reply(topic@, rows@.map_values(|p: (String, u64)| (p.0@, p.1))),
{
    let ghost vs = rows@.map_values(|p: (String, u64)| (p.0@, p.1));
    let mut body = String::new();
    let mut i: usize = 0;
    proof {
        assert(vs.take(0) =~= Seq::<(Seq<char>, u64)>::empty());
    }
    while i < rows.len()
        invariant
            rows@.map_values(|p: (String, u64)| (p.0@, p.1)) == vs,
            0 <= i <= rows@.len(),
            body@ == fact_lines(topic@, vs.take(i as int)),
        decreases rows@.len() - i,
    {
        let line = fact_line_exec(topic, rows[i].0.as_str(), rows[i].1);
        body.append(line.as_str());
        proof {
            assert(rows@.map_values(|p: (String, u64)| (p.0@, p.1))[i as int] == (
                rows@[i as int].0@,
                rows@[i as int].1,
            ));
            assert(vs.take(i as int).push(vs[i as int]) =~= vs.take(i as int + 1));
            lemma_fact_lines_push(topic@, vs.take(i as int), vs[i as int]);
        }
        i += 1;
    }
    let mut r = "Bucket has ".to_owned();
    let digits = u64_to_string(rows.len() as u64);
    r.append(digits.as_str());
    r.append(" facts:\n");
    r.append(body.as_str());
    proof {
        assert(vs.take(rows@.len() as int) =~= vs);
        assert(r@ =~= lookup_reply(topic@, vs));
    }
    r
}

/// Runs one message against the store. `id` becomes the identifier of the
/// fact a valid `add` inserts (the caller passes the current Unix second).
/// On success the store is updated and the owed reply returned; on a
/// storage failure the store is unchanged and the error reported.
pub fn handle_message(store: &mut FactStore, msg: &str, id: u64) -> (r: Result<
    Option<String>,
    StoreError,
>)
    ensures
        r matches Ok(rep) ==> final(store)@ == store_after(old(store)@, spec_parse(msg@), id)
            && reply_spec(old(store)@, spec_parse(msg@), opt_text(rep)),
        r is Err ==> final(store)@ == old(store)@,
        !touches_store(spec_parse(msg@)) ==> r is Ok,
{
    let cmd = parse_command(msg);
    match cmd {
        Command::Ignore => Ok(None),
        Command::Ping => Ok(Some("Pong!".to_owned())),
        Command::Help => Ok(Some(
            "commands:\nbucket ping - bot will reply with 'Pong!'\nbucket add <topic> is <fact> - adds a fact\nbucket random - shows a random fact\nbucket flush - writes the database out to disk\nbucket [get] topic - shows facts on a topic\nbucket del <id> - deletes a fact".to_owned(),
        )),
        Command::Flush => match store.flush() {
            Ok(_) => Ok(None),
            Err(e) => Err(e),
        },
        Command::Add { topic, fact } => {
            let topic_chars = topic.as_str().unicode_len();
            if topic_chars > MAX_TOPIC_CHARS || fact.len() > MAX_FACT_TOKENS {
                Ok(Some("hey, no books!".to_owned()))
            } else {
                let text = join_spaces(&fact);
                match store.insert(topic.as_str(), text.as_str(), id) {
                    Ok(_) => Ok(None),
                    Err(e) => Err(e),
                }
            }
        },
        Command::Del { id: del_id } => match store.delete_by_id(del_id) {
            Ok(_) => Ok(None),
            Err(e) => Err(e),
        },
        Command::Random => match store.random_one() {
            Ok(Some(p)) => {
                let rep = random_reply_exec(p.0.as_str(), p.1.as_str());
                proof {
                    let witness_id = choose|witness_id: u64|
                        old(store)@.contains((p.0@, p.1@, witness_id));
                    assert(old(store)@.contains((p.0@, p.1@, witness_id)));
                }
                Ok(Some(rep))
            },
            Ok(None) => Ok(Some("No facts to show".to_owned())),
            Err(e) => Err(e),
        },
        Command::Lookup { topic } => match store.topic_facts(topic.as_str()) {
            Ok(rows) => {
                if rows.len() == 0 {
                    Ok(Some("no facts on that topic :(".to_owned()))
                } else {
                    let rep = lookup_reply_exec(topic.as_str(), &rows);
                    proof {
                        let w = rows@.map_values(|p: (String, u64)| (p.0@, p.1));
                        assert(w.map_values(|p: (Seq<char>, u64)| (topic@, p.0, p.1)) =~= rows@
                            .map_values(|p: (String, u64)| (topic@, p.0@, p.1)));
                        assert(w.len() == sample_len(with_topic(old(store)@, topic@).len()));
                        assert(rows_of(topic@, w).subset_of(with_topic(old(store)@, topic@)));
                    }
                    Ok(Some(rep))
                }
            },
            Err(e) => Err(e),
        },
    }
}

} // verus!

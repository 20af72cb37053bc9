//! The command grammar: `bucket <verb> ...`, dispatched on the second
//! whitespace-separated token of the message.

use vstd::prelude::*;
use crate::num::{all_digits, parse_u64, spec_decimal_val};
use crate::text::{spec_tokens, str_eq, tokenize};

verus! {

/// The longest topic accepted by `add`, in characters.
pub const MAX_TOPIC_CHARS: usize = 32;

/// The most whitespace-separated fact words accepted by `add`.
pub const MAX_FACT_TOKENS: usize = 256;

/// A parsed command, abstractly. `Ignore` stands for every message that asks
/// for nothing: one without the `bucket` prefix, without a verb, with an
/// unusable argument, or with too few tokens for its verb.
pub enum SpecCommand {
    Ignore,
    Add { topic: Seq<char>, fact: Seq<Seq<char>> },
    Del { id: u64 },
    Ping,
    Help,
    Flush,
    Random,
    Lookup { topic: Seq<char> },
}

/// What a message means. The message must begin with the literal prefix
/// `bucket `; the second whitespace-separated token picks the verb. `add`
/// needs a topic and at least one fact word after the (ignored) third
/// token; `del` needs a decimal identifier that fits in 64 bits; `get`
/// needs a topic; any other second token is itself a topic lookup.
pub open spec fn spec_parse(s: Seq<char>) -> SpecCommand {
    let toks = spec_tokens(s);
    if s.len() < 7 || s.take(7) != "bucket "@ || toks.len() < 2 {
        SpecCommand::Ignore
    } else if toks[1] == "add"@ {
        if toks.len() >= 5 {
            SpecCommand::Add { topic: toks[2], fact: toks.skip(4) }
        } else {
            SpecCommand::Ignore
        }
    } else if toks[1] == "del"@ {
        if toks.len() >= 3 && toks[2].len() > 0 && all_digits(toks[2]) && spec_decimal_val(toks[2])
            <= u64::MAX {
            SpecCommand::Del { id: spec_decimal_val(toks[2]) as u64 }
        } else {
            SpecCommand::Ignore
        }
    } else if toks[1] == "ping"@ {
        SpecCommand::Ping
    } else if toks[1] == "help"@ {
        SpecCommand::Help
    } else if toks[1] == "flush"@ {
        SpecCommand::Flush
    } else if toks[1] == "random"@ {
        SpecCommand::Random
    } else if toks[1] == "get"@ {
        if toks.len() >= 3 {
            SpecCommand::Lookup { topic: toks[2] }
        } else {
            SpecCommand::Ignore
        }
    } else {
        SpecCommand::Lookup { topic: toks[1] }
    }
}

/// A parsed command, executably.
pub enum Command {
    Ignore,
    Add { topic: String, fact: Vec<String> },
    Del { id: u64 },
    Ping,
    Help,
    Flush,
    Random,
    Lookup { topic: String },
}

impl View for Command {
    type V = SpecCommand;

    open spec fn view(&self) -> SpecCommand {
        match self {
            Command::Ignore => SpecCommand::Ignore,
            Command::Add { topic, fact } => SpecCommand::Add {
                topic: topic@,
                fact: fact@.map_values(|t: String| t@),
            },
            Command::Del { id } => SpecCommand::Del { id: *id },
            Command::Ping => SpecCommand::Ping,
            Command::Help => SpecCommand::Help,
            Command::Flush => SpecCommand::Flush,
            Command::Random => SpecCommand::Random,
            Command::Lookup { topic } => SpecCommand::Lookup { topic: topic@ },
        }
    }
}

/// Parses a raw message into the command it asks for.
pub fn parse_command(msg: &str) -> (c: Command)
    ensures
        c@ == spec_parse(msg@),
{
    let msg_chars = msg.unicode_len();
    if msg_chars < 7 {
        return Command::Ignore;
    }
    let head = msg.substring_char(0, 7);
    if !str_eq(head, "bucket ") {
        return Command::Ignore;
    }
    let toks = tokenize(msg);
    let ghost ts = spec_tokens(msg@);
    proof {
        if toks@.len() >= 2 {
            assert(toks@.map_values(|t: String| t@)[1] == toks@[1]@);
        }
        if toks@.len() >= 3 {
            assert(toks@.map_values(|t: String| t@)[2] == toks@[2]@);
        }
    }
    if toks.len() < 2 {
        return Command::Ignore;
    }
    let verb = toks[1].as_str();
    if str_eq(verb, "add") {
        if toks.len() >= 5 {
            let topic = toks[2].clone();
            let mut fact: Vec<String> = Vec::new();
            let mut i: usize = 4;
            proof {
                assert(fact@.map_values(|t: String| t@) =~= ts.subrange(4, 4));
            }
            while i < toks.len()
                invariant
                    4 <= i <= toks@.len(),
                    toks@.map_values(|t: String| t@) == ts,
                    fact@.map_values(|t: String| t@) == ts.subrange(4, i as int),
                decreases toks@.len() - i,
            {
                let ghost pre = fact@;
                fact.push(toks[i].clone());
                proof {
                    assert(toks@.map_values(|t: String| t@)[i as int] == toks@[i as int]@);
                    assert(fact@.map_values(|t: String| t@) =~= pre.map_values(
                        |t: String| t@,
                    ).push(toks@[i as int]@));
                    assert(ts.subrange(4, i as int).push(ts[i as int]) =~= ts.subrange(
                        4,
                        i as int + 1,
                    ));
                }
                i += 1;
            }
            proof {
                assert(ts.subrange(4, ts.len() as int) =~= ts.skip(4));
            }
            Command::Add { topic, fact }
        } else {
            Command::Ignore
        }
    } else if str_eq(verb, "del") {
        if toks.len() >= 3 {
            match parse_u64(toks[2].as_str()) {
                Some(id) => Command::Del { id },
                None => Command::Ignore,
            }
        } else {
            Command::Ignore
        }
    } else if str_eq(verb, "ping") {
        Command::Ping
    } else if str_eq(verb, "help") {
        Command::Help
    } else if str_eq(verb, "flush") {
        Command::Flush
    } else if str_eq(verb, "random") {
        Command::Random
    } else if str_eq(verb, "get") {
        if toks.len() >= 3 {
            Command::Lookup { topic: toks[2].clone() }
        } else {
            Command::Ignore
        }
    } else {
        Command::Lookup { topic: toks[1].clone() }
    }
}

} // verus!

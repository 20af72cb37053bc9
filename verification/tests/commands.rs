//! End-to-end tests of the command handler against a real in-memory store.

use bucket::handler::handle_message;
use bucket::store::FactStore;

fn mem_store() -> FactStore {
    FactStore::open_in_memory().expect("in-memory store")
}

fn run(store: &mut FactStore, msg: &str, id: u64) -> Option<String> {
    handle_message(store, msg, id).expect("storage")
}

#[test]
fn ping_replies_pong() {
    let mut store = mem_store();
    assert_eq!(run(&mut store, "bucket ping", 0), Some("Pong!".to_string()));
}

#[test]
fn ping_ignores_store_state() {
    let mut store = mem_store();
    assert_eq!(run(&mut store, "bucket add coffee is hot", 1), None);
    assert_eq!(run(&mut store, "bucket ping", 2), Some("Pong!".to_string()));
}

#[test]
fn add_then_lookup_end_to_end() {
    let mut store = mem_store();
    assert_eq!(run(&mut store, "bucket add coffee is best with milk", 42), None);
    let reply = run(&mut store, "bucket coffee", 43).expect("a reply");
    assert!(reply.contains(" - coffee is best with milk (42)"));
    assert_eq!(reply, "Bucket has 1 facts:\n - coffee is best with milk (42)\n");
}

#[test]
fn get_prefix_is_equivalent_lookup() {
    let mut store = mem_store();
    assert_eq!(run(&mut store, "bucket add tea is leafy", 7), None);
    let bare = run(&mut store, "bucket tea", 8);
    let with_get = run(&mut store, "bucket get tea", 9);
    assert_eq!(bare, with_get);
    assert_eq!(bare, Some("Bucket has 1 facts:\n - tea is leafy (7)\n".to_string()));
}

#[test]
fn add_long_topic_rejected() {
    let mut store = mem_store();
    let topic33 = "a".repeat(33);
    let msg = format!("bucket add {} is too much", topic33);
    assert_eq!(run(&mut store, &msg, 1), Some("hey, no books!".to_string()));
    let lookup = format!("bucket {}", topic33);
    assert_eq!(
        run(&mut store, &lookup, 2),
        Some("no facts on that topic :(".to_string())
    );
}

#[test]
fn add_topic_of_32_accepted() {
    let mut store = mem_store();
    let topic32 = "b".repeat(32);
    let msg = format!("bucket add {} is fine", topic32);
    assert_eq!(run(&mut store, &msg, 5), None);
    let reply = run(&mut store, &format!("bucket {}", topic32), 6).expect("a reply");
    assert_eq!(reply, format!("Bucket has 1 facts:\n - {} is fine (5)\n", topic32));
}

#[test]
fn add_long_fact_rejected() {
    let mut store = mem_store();
    let fact257 = vec!["w"; 257].join(" ");
    let msg = format!("bucket add books is {}", fact257);
    assert_eq!(run(&mut store, &msg, 1), Some("hey, no books!".to_string()));
    assert_eq!(
        run(&mut store, "bucket books", 2),
        Some("no facts on that topic :(".to_string())
    );
}

#[test]
fn add_fact_of_256_accepted() {
    let mut store = mem_store();
    let fact256 = vec!["w"; 256].join(" ");
    let msg = format!("bucket add books is {}", fact256);
    assert_eq!(run(&mut store, &msg, 1), None);
    let reply = run(&mut store, "bucket books", 2).expect("a reply");
    assert!(reply.starts_with("Bucket has 1 facts:\n"));
    assert!(reply.contains(&fact256));
}

#[test]
fn del_removes_exactly_that_id() {
    let mut store = mem_store();
    assert_eq!(run(&mut store, "bucket add cats is fluffy", 10), None);
    assert_eq!(run(&mut store, "bucket add cats is aloof", 11), None);
    assert_eq!(run(&mut store, "bucket del 10", 12), None);
    let reply = run(&mut store, "bucket cats", 13).expect("a reply");
    assert_eq!(reply, "Bucket has 1 facts:\n - cats is aloof (11)\n");
}

#[test]
fn del_removes_every_row_sharing_the_id() {
    let mut store = mem_store();
    assert_eq!(run(&mut store, "bucket add cats is fluffy", 10), None);
    assert_eq!(run(&mut store, "bucket add dogs is loyal", 10), None);
    assert_eq!(run(&mut store, "bucket add fish is quiet", 20), None);
    assert_eq!(run(&mut store, "bucket del 10", 30), None);
    assert_eq!(
        run(&mut store, "bucket cats", 31),
        Some("no facts on that topic :(".to_string())
    );
    assert_eq!(
        run(&mut store, "bucket dogs", 32),
        Some("no facts on that topic :(".to_string())
    );
    assert_eq!(
        run(&mut store, "bucket fish", 33),
        Some("Bucket has 1 facts:\n - fish is quiet (20)\n".to_string())
    );
}

#[test]
fn del_of_unknown_id_is_silent() {
    let mut store = mem_store();
    assert_eq!(run(&mut store, "bucket del 999", 1), None);
}

#[test]
fn del_without_id_is_silent() {
    let mut store = mem_store();
    assert_eq!(run(&mut store, "bucket del", 1), None);
}

#[test]
fn del_with_unusable_id_is_silent_and_harmless() {
    let mut store = mem_store();
    assert_eq!(run(&mut store, "bucket add cats is fluffy", 10), None);
    assert_eq!(run(&mut store, "bucket del abc", 11), None);
    assert_eq!(run(&mut store, "bucket del 18446744073709551616", 12), None);
    let reply = run(&mut store, "bucket cats", 13).expect("a reply");
    assert_eq!(reply, "Bucket has 1 facts:\n - cats is fluffy (10)\n");
}

#[test]
fn random_on_empty_store() {
    let mut store = mem_store();
    assert_eq!(run(&mut store, "bucket random", 1), Some("No facts to show".to_string()));
}

#[test]
fn random_returns_an_existing_fact() {
    let mut store = mem_store();
    assert_eq!(run(&mut store, "bucket add coffee is best with milk", 1), None);
    assert_eq!(
        run(&mut store, "bucket random", 2),
        Some(" - coffee is best with milk".to_string())
    );
}

#[test]
fn random_picks_among_stored_facts() {
    let mut store = mem_store();
    assert_eq!(run(&mut store, "bucket add coffee is hot", 1), None);
    assert_eq!(run(&mut store, "bucket add tea is hotter", 2), None);
    for _ in 0..20 {
        let reply = run(&mut store, "bucket random", 3).expect("a reply");
        assert!(reply == " - coffee is hot" || reply == " - tea is hotter");
    }
}

#[test]
fn lookup_empty_topic() {
    let mut store = mem_store();
    assert_eq!(
        run(&mut store, "bucket nothing", 1),
        Some("no facts on that topic :(".to_string())
    );
}

#[test]
fn lookup_returns_all_facts_up_to_seven() {
    let mut store = mem_store();
    for i in 1..=3u64 {
        let msg = format!("bucket add t is fact{}", i);
        assert_eq!(run(&mut store, &msg, i), None);
    }
    let reply = run(&mut store, "bucket t", 9).expect("a reply");
    assert!(reply.starts_with("Bucket has 3 facts:\n"));
    let lines: Vec<&str> = reply.lines().skip(1).collect();
    assert_eq!(lines.len(), 3);
    for i in 1..=3u64 {
        let line = format!(" - t is fact{} ({})", i, i);
        assert_eq!(lines.iter().filter(|l| ***l == line).count(), 1);
    }
}

#[test]
fn lookup_returns_exactly_seven_of_many() {
    let mut store = mem_store();
    for i in 1..=9u64 {
        let msg = format!("bucket add t is fact{}", i);
        assert_eq!(run(&mut store, &msg, i), None);
    }
    let reply = run(&mut store, "bucket t", 99).expect("a reply");
    assert!(reply.starts_with("Bucket has 7 facts:\n"));
    let lines: Vec<&str> = reply.lines().skip(1).collect();
    assert_eq!(lines.len(), 7);
    let mut seen: Vec<&str> = Vec::new();
    for line in &lines {
        let mut member = false;
        for i in 1..=9u64 {
            if **line == format!(" - t is fact{} ({})", i, i) {
                member = true;
            }
        }
        assert!(member, "line not from the true set: {}", line);
        assert!(!seen.contains(line), "duplicate line: {}", line);
        seen.push(line);
    }
}

#[test]
fn lookup_is_exact_topic_match() {
    let mut store = mem_store();
    assert_eq!(run(&mut store, "bucket add coffee is hot", 1), None);
    assert_eq!(
        run(&mut store, "bucket coffe", 2),
        Some("no facts on that topic :(".to_string())
    );
    assert_eq!(
        run(&mut store, "bucket Coffee", 3),
        Some("no facts on that topic :(".to_string())
    );
}

#[test]
fn help_reply_is_fixed() {
    let mut store = mem_store();
    let expected = "commands:\nbucket ping - bot will reply with 'Pong!'\nbucket add <topic> is <fact> - adds a fact\nbucket random - shows a random fact\nbucket flush - writes the database out to disk\nbucket [get] topic - shows facts on a topic\nbucket del <id> - deletes a fact";
    assert_eq!(run(&mut store, "bucket help", 1), Some(expected.to_string()));
}

#[test]
fn flush_is_silent_and_harmless() {
    let mut store = mem_store();
    assert_eq!(run(&mut store, "bucket add coffee is hot", 1), None);
    assert_eq!(run(&mut store, "bucket flush", 2), None);
    assert_eq!(
        run(&mut store, "bucket coffee", 3),
        Some("Bucket has 1 facts:\n - coffee is hot (1)\n".to_string())
    );
}

#[test]
fn messages_without_prefix_are_ignored() {
    let mut store = mem_store();
    assert_eq!(run(&mut store, "hello there", 1), None);
    assert_eq!(run(&mut store, "buckets ping", 2), None);
    assert_eq!(run(&mut store, "", 3), None);
    assert_eq!(run(&mut store, " bucket ping", 4), None);
    assert_eq!(run(&mut store, "bucket\tping", 5), None);
}

#[test]
fn bucket_without_verb_is_ignored() {
    let mut store = mem_store();
    assert_eq!(run(&mut store, "bucket", 1), None);
    assert_eq!(run(&mut store, "bucket   ", 2), None);
}

#[test]
fn short_add_is_ignored_not_a_fault() {
    let mut store = mem_store();
    assert_eq!(run(&mut store, "bucket add", 1), None);
    assert_eq!(run(&mut store, "bucket add coffee", 2), None);
    assert_eq!(run(&mut store, "bucket add coffee is", 3), None);
    assert_eq!(
        run(&mut store, "bucket coffee", 4),
        Some("no facts on that topic :(".to_string())
    );
}

#[test]
fn get_without_topic_is_ignored() {
    let mut store = mem_store();
    assert_eq!(run(&mut store, "bucket get", 1), None);
}

#[test]
fn whitespace_runs_collapse_in_stored_text() {
    let mut store = mem_store();
    assert_eq!(run(&mut store, "bucket   add  coffee   is best   with  milk", 5), None);
    assert_eq!(
        run(&mut store, "bucket coffee", 6),
        Some("Bucket has 1 facts:\n - coffee is best with milk (5)\n".to_string())
    );
}

#[test]
fn huge_ids_round_trip() {
    let mut store = mem_store();
    assert_eq!(run(&mut store, "bucket add big is beyond", u64::MAX), None);
    assert_eq!(
        run(&mut store, "bucket big", 1),
        Some(format!("Bucket has 1 facts:\n - big is beyond ({})\n", u64::MAX))
    );
    assert_eq!(run(&mut store, &format!("bucket del {}", u64::MAX), 2), None);
    assert_eq!(
        run(&mut store, "bucket big", 3),
        Some("no facts on that topic :(".to_string())
    );
}

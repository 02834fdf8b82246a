use winshift::TitleDeduplicator;

fn titles(items: &[&str]) -> Vec<String> {
    items.iter().map(|item| item.to_string()).collect()
}

#[test]
fn feed_collapses_runs_to_their_first_title() {
    let mut dedup = TitleDeduplicator::new();
    let out = dedup.feed(titles(&["A", "A", "B", "B", "B", "A"]));
    assert_eq!(out, titles(&["A", "B", "A"]));
}

#[test]
fn offers_one_by_one_deliver_like_a_batch() {
    let mut dedup = TitleDeduplicator::new();
    let mut out = Vec::new();
    for title in titles(&["A", "A", "B", "B", "B", "A"]) {
        if let Some(delivered) = dedup.offer(title) {
            out.push(delivered);
        }
    }
    assert_eq!(out, titles(&["A", "B", "A"]));
}

#[test]
fn first_title_is_delivered_even_when_empty() {
    let mut dedup = TitleDeduplicator::new();
    assert_eq!(dedup.offer(String::new()), Some(String::new()));
    assert_eq!(dedup.offer(String::new()), None);
}

#[test]
fn repeated_title_is_suppressed_and_changed_title_passes() {
    let mut dedup = TitleDeduplicator::new();
    assert_eq!(dedup.offer("Editor".to_string()), Some("Editor".to_string()));
    assert_eq!(dedup.offer("Editor".to_string()), None);
    assert_eq!(dedup.offer("Editor".to_string()), None);
    assert_eq!(dedup.offer("Browser".to_string()), Some("Browser".to_string()));
    assert_eq!(dedup.offer("Editor".to_string()), Some("Editor".to_string()));
}

#[test]
fn feed_of_nothing_delivers_nothing_and_keeps_the_memory() {
    let mut dedup = TitleDeduplicator::new();
    assert_eq!(dedup.feed(Vec::new()), Vec::<String>::new());
    assert_eq!(dedup.offer("A".to_string()), Some("A".to_string()));
    assert_eq!(dedup.feed(Vec::new()), Vec::<String>::new());
    assert_eq!(dedup.offer("A".to_string()), None);
}

#[test]
fn feed_continues_from_the_title_remembered() {
    let mut dedup = TitleDeduplicator::new();
    assert_eq!(dedup.feed(titles(&["A", "B"])), titles(&["A", "B"]));
    assert_eq!(dedup.feed(titles(&["B", "B", "C", "C"])), titles(&["C"]));
    assert_eq!(dedup.feed(titles(&["C", "A"])), titles(&["A"]));
}

#[test]
fn feed_without_repetitions_delivers_everything() {
    let mut dedup = TitleDeduplicator::new();
    let input = titles(&["one", "two", "three", "one", "two"]);
    assert_eq!(dedup.feed(input.clone()), input);
}

#[test]
fn titles_differing_in_case_are_different() {
    let mut dedup = TitleDeduplicator::new();
    assert_eq!(dedup.feed(titles(&["a", "A", "a"])), titles(&["a", "A", "a"]));
}

use dashmap::DashMap;
use salvation::save::RustSaveLoader;

fn s(x: &str) -> String {
    x.to_string()
}

#[test]
fn new_store_is_empty() {
    let store = RustSaveLoader::new();
    assert!(store.is_empty());
}

#[test]
fn record_then_take() {
    let mut store = RustSaveLoader::new();
    store.record(s("RustZombie"), s("{\"health\":70}"));
    store.record(s("RustZombie"), s("{\"health\":20}"));
    assert!(!store.is_empty());
    let taken = store.take(&s("RustZombie"));
    assert_eq!(taken, Some(vec![s("{\"health\":70}"), s("{\"health\":20}")]));
    assert!(store.is_empty());
    assert_eq!(store.take(&s("RustZombie")), None);
}

#[test]
fn recording_twice_keeps_one() {
    let mut store = RustSaveLoader::new();
    store.record(s("RustBoss"), s("a"));
    store.record(s("RustBoss"), s("a"));
    store.record(s("RustBoss"), s("b"));
    store.record(s("RustBoss"), s("a"));
    assert_eq!(store.take(&s("RustBoss")), Some(vec![s("a"), s("b")]));
}

#[test]
fn record_single_replaces() {
    let mut store = RustSaveLoader::new();
    store.record(s("RustPlayer"), s("old"));
    store.record(s("RustPlayer"), s("older"));
    store.record_single(s("RustPlayer"), s("new"));
    assert_eq!(store.take(&s("RustPlayer")), Some(vec![s("new")]));
}

#[test]
fn take_leaves_other_classes() {
    let mut store = RustSaveLoader::new();
    store.record(s("A"), s("1"));
    store.record(s("B"), s("2"));
    assert_eq!(store.take(&s("A")), Some(vec![s("1")]));
    assert!(!store.is_empty());
    assert_eq!(store.take(&s("B")), Some(vec![s("2")]));
}

#[test]
fn load_game_reads_and_dedups() {
    let mut store = RustSaveLoader::new();
    let loaded = store.load_game("{\"RustZombie\": [\"a\", \"b\", \"a\"], \"RustLevel\": [\"l\"]}");
    assert!(loaded);
    assert_eq!(store.take(&s("RustZombie")), Some(vec![s("a"), s("b")]));
    assert_eq!(store.take(&s("RustLevel")), Some(vec![s("l")]));
    assert!(store.is_empty());
}

#[test]
fn load_game_replaces_only_the_classes_it_holds() {
    let mut store = RustSaveLoader::new();
    store.record(s("RustZombie"), s("mine"));
    store.record(s("RustBoss"), s("boss"));
    assert!(store.load_game("{\"RustZombie\": [\"theirs\"]}"));
    assert_eq!(store.take(&s("RustZombie")), Some(vec![s("theirs")]));
    assert_eq!(store.take(&s("RustBoss")), Some(vec![s("boss")]));
}

#[test]
fn unreadable_text_changes_nothing() {
    let mut store = RustSaveLoader::new();
    assert!(!store.load_game("not json"));
    assert!(!store.load_game("{\"RustZombie\": 3}"));
    assert!(store.is_empty());
    store.record(s("X"), s("1"));
    assert!(!store.load_game("[1, 2]"));
    assert_eq!(store.take(&s("X")), Some(vec![s("1")]));
}

#[test]
fn empty_save_loads_nothing() {
    let mut store = RustSaveLoader::new();
    assert!(!store.load_game("{}"));
    store.record(s("X"), s("1"));
    assert!(store.load_game("{}"));
}

#[test]
fn merge_takes_a_read_store() {
    let mut store = RustSaveLoader::new();
    store.record(s("Keep"), s("k"));
    let loaded: DashMap<String, Vec<String>> = DashMap::new();
    loaded.insert(s("RustPitcher"), vec![s("p"), s("p"), s("q")]);
    assert!(store.merge(loaded));
    assert_eq!(store.take(&s("RustPitcher")), Some(vec![s("p"), s("q")]));
    assert_eq!(store.take(&s("Keep")), Some(vec![s("k")]));
    assert!(!store.merge(DashMap::new()));
}

#[test]
fn save_then_load_round_trip() {
    let mut store = RustSaveLoader::new();
    store.record(s("RustZombie"), s("z1"));
    store.record(s("RustZombie"), s("z2"));
    store.record_single(s("RustLevel"), s("lvl"));
    let text = store.save_game();
    let mut other = RustSaveLoader::new();
    assert!(other.load_game(&text));
    assert_eq!(other.take(&s("RustZombie")), Some(vec![s("z1"), s("z2")]));
    assert_eq!(other.take(&s("RustLevel")), Some(vec![s("lvl")]));
    assert!(other.is_empty());
}

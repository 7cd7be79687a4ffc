//! Name generation and path composition: exact values for the seeded,
//! deterministic generator and the composition rules.

use temporary::Acquire;
use temporary::Attempt;
use temporary::NameGenerator;
use temporary::paths::compose_candidate;
use temporary::paths::is_absolute;
use temporary::paths::join_path;
use temporary::paths::resolve_parent;
use temporary::random_seed;

#[test]
fn seed_is_derived_from_the_prefix_alone() {
    assert_eq!(random_seed("/tmp", "foo"), 305420092);
    assert_eq!(random_seed("/tmp", ""), 305419896);
    assert_eq!(random_seed("/a", "foo"), random_seed("/b", "foo"));
}

#[test]
fn generator_is_deterministic() {
    let mut one = NameGenerator::from_seed(305420092);
    let mut two = NameGenerator::from_seed(305420092);
    assert_eq!(one.next_name(12), "jspypvouomkc");
    assert_eq!(two.next_name(12), "jspypvouomkc");
    assert_eq!(one.next_name(12), "gkcyrbkbtgif");
}

#[test]
fn names_are_lowercase_letters_of_fixed_length() {
    let mut generator = NameGenerator::from_seed(42);
    for _ in 0..8 {
        let name = generator.next_name(12);
        assert_eq!(name.len(), 12);
        assert!(name.chars().all(|c| c.is_ascii_lowercase()));
    }
}

#[test]
fn prefix_formatting() {
    assert_eq!(
        compose_candidate("/tmp", "foo", "abcdefghijkl"),
        "/tmp/foo.abcdefghijkl"
    );
    assert_eq!(compose_candidate("/tmp", "", "abcdefghijkl"), "/tmp/abcdefghijkl");
}

#[test]
fn first_candidate_is_the_prefixed_first_name() {
    let mut acquire = Acquire::new("/tmp".to_string(), "foo".to_string());
    match acquire.next_attempt() {
        Attempt::Create(candidate) => assert_eq!(candidate, "/tmp/foo.jspypvouomkc"),
        Attempt::GiveUp(_) => panic!("a fresh budget is not exhausted"),
    }
}

#[test]
fn join_keeps_a_single_separator() {
    assert_eq!(join_path("/a", "b"), "/a/b");
    assert_eq!(join_path("/", "b"), "/b");
    assert_eq!(join_path("/a/", "b"), "/a/b");
}

#[test]
fn absolute_paths_start_with_the_separator() {
    assert!(is_absolute("/tmp"));
    assert!(!is_absolute("tmp"));
    assert!(!is_absolute(""));
}

#[test]
fn relative_parent_resolution() {
    let direct = resolve_parent("relative/sub", "/work");
    let joined = join_path("/work", "relative/sub");
    let via_absolute = resolve_parent(&joined, "/work");
    assert_eq!(direct, "/work/relative/sub");
    assert_eq!(direct, via_absolute);
}

#[test]
fn absolute_parent_resolves_to_itself() {
    assert_eq!(resolve_parent("/already/abs", "/work"), "/already/abs");
}

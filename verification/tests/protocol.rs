//! The acquisition and cleanup protocol, driven against a simulated
//! filesystem: a list of the directory names that exist, where creating an
//! existing name fails as a collision.

use temporary::Acquire;
use temporary::Attempt;
use temporary::Decision;
use temporary::ErrorKind;
use temporary::Folder;
use temporary::Outcome;

/// Drive one acquisition against the simulated filesystem.
fn run_acquire(
    sim: &mut Vec<String>,
    parent: &str,
    prefix: &str,
    budget: u32,
) -> Result<Folder, ErrorKind> {
    let mut acquire = Acquire::with_budget(parent.to_string(), prefix.to_string(), budget);
    loop {
        match acquire.next_attempt() {
            Attempt::GiveUp(kind) => return Err(kind),
            Attempt::Create(candidate) => {
                let outcome = if sim.contains(&candidate) {
                    Outcome::AlreadyExists
                } else {
                    sim.push(candidate.clone());
                    Outcome::Created
                };
                match acquire.decide(outcome) {
                    Decision::Finished(folder) => return Ok(folder),
                    Decision::Retry => {}
                    Decision::Abort(kind) => return Err(kind),
                }
            }
        }
    }
}

#[test]
fn uniqueness_under_load() {
    let mut sim: Vec<String> = Vec::new();
    let mut paths: Vec<String> = Vec::new();
    for _ in 0..5 {
        let folder = run_acquire(&mut sim, "/tmp", "foo", 1 << 31).unwrap();
        paths.push(folder.into_path());
    }
    for i in 0..paths.len() {
        assert!(sim.contains(&paths[i]), "every acquired directory exists");
        for j in 0..i {
            assert_ne!(paths[i], paths[j], "acquired paths are pairwise distinct");
        }
    }
}

#[test]
fn cleanup_removes_the_directory() {
    let mut sim: Vec<String> = Vec::new();
    let mut folder = run_acquire(&mut sim, "/tmp", "foo", 1 << 31).unwrap();
    let owned = folder.path().to_string();
    assert!(sim.contains(&owned));
    let to_remove = folder.cleanup().expect("a live handle asks for one removal");
    assert_eq!(to_remove, owned);
    sim.retain(|p| *p != to_remove);
    assert!(!sim.contains(&owned), "the directory is gone after cleanup");
}

#[test]
fn release_escape_hatch() {
    let mut sim: Vec<String> = Vec::new();
    let folder = run_acquire(&mut sim, "/tmp", "foo", 1 << 31).unwrap();
    let owned = folder.into_path();
    // The handle is consumed without asking for any removal, so the
    // directory stays.
    assert!(sim.contains(&owned));
}

#[test]
fn idempotent_cleanup() {
    let mut sim: Vec<String> = Vec::new();
    let mut folder = run_acquire(&mut sim, "/tmp", "foo", 1 << 31).unwrap();
    let first = folder.cleanup();
    assert!(first.is_some(), "the first cleanup asks for the removal");
    let second = folder.cleanup();
    assert!(second.is_none(), "the second cleanup asks for nothing");
}

#[test]
fn remove_after_cleanup_is_a_no_op() {
    let mut sim: Vec<String> = Vec::new();
    let mut folder = run_acquire(&mut sim, "/tmp", "foo", 1 << 31).unwrap();
    let first = folder.cleanup();
    assert!(first.is_some());
    assert!(folder.remove().is_none(), "remove after cleanup asks for nothing");
}

#[test]
fn remove_hands_back_the_owned_path() {
    let mut sim: Vec<String> = Vec::new();
    let folder = run_acquire(&mut sim, "/tmp", "foo", 1 << 31).unwrap();
    let owned = folder.path().to_string();
    assert_eq!(folder.remove(), Some(owned));
}

#[test]
fn collision_retry_end_to_end() {
    // Pre-create the directory the seeded generator names first.
    let mut probe_sim: Vec<String> = Vec::new();
    let first = run_acquire(&mut probe_sim, "/tmp", "foo", 1 << 31)
        .unwrap()
        .into_path();

    let mut sim: Vec<String> = vec![first.clone()];
    let folder = run_acquire(&mut sim, "/tmp", "foo", 1 << 31).unwrap();
    assert_ne!(folder.path(), first, "the collision is recovered with a new name");
    assert!(sim.contains(&folder.path().to_string()));
    assert_eq!(sim.len(), 2);
}

#[test]
fn non_collision_failure_is_terminal() {
    let mut acquire = Acquire::new("/tmp".to_string(), "foo".to_string());
    let mut attempts = 0;
    let result = loop {
        match acquire.next_attempt() {
            Attempt::GiveUp(kind) => break Err(kind),
            Attempt::Create(_) => {
                attempts += 1;
                // The simulated creation fails with a non-collision error.
                match acquire.decide(Outcome::OtherFailure) {
                    Decision::Finished(_) => panic!("no directory was created"),
                    Decision::Retry => {}
                    Decision::Abort(kind) => break Err::<Folder, _>(kind),
                }
            }
        }
    };
    assert_eq!(attempts, 1, "a hard failure is not retried");
    assert!(matches!(result, Err(ErrorKind::CreationFailed)));
}

#[test]
fn namespace_exhausted_with_no_budget() {
    let mut acquire = Acquire::with_budget("/tmp".to_string(), "foo".to_string(), 0);
    assert!(matches!(
        acquire.next_attempt(),
        Attempt::GiveUp(ErrorKind::NamespaceExhausted)
    ));
}

#[test]
fn namespace_exhausted_after_collisions() {
    // Fill the simulated parent with the only two names a budget of two
    // allows, then watch the budget run out.
    let mut probe_sim: Vec<String> = Vec::new();
    run_acquire(&mut probe_sim, "/tmp", "foo", 2).unwrap();
    run_acquire(&mut probe_sim, "/tmp", "foo", 2).unwrap();

    let mut sim = probe_sim.clone();
    let result = run_acquire(&mut sim, "/tmp", "foo", 2);
    assert!(matches!(result, Err(ErrorKind::NamespaceExhausted)));
}

#[test]
fn path_accessor_matches_release() {
    let mut sim: Vec<String> = Vec::new();
    let folder = run_acquire(&mut sim, "/tmp", "foo", 1 << 31).unwrap();
    let seen = folder.path().to_string();
    assert_eq!(folder.into_path(), seen);
}

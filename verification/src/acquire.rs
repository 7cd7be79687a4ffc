//! The directory-acquisition protocol.
//!
//! An [`Acquire`] value drives one acquisition: it draws fixed-length
//! suffixes from a seeded [`NameGenerator`], composes candidate paths under
//! an absolute parent, and decides what follows from the outcome of each
//! atomic create attempt. The filesystem work itself — the create call, and
//! the classification of its error as "already exists" or other — happens
//! outside; the outcome is fed back through [`Acquire::decide`]. The create
//! primitive's atomicity is the sole race-prevention mechanism: no prior
//! existence check is made, and a collision simply moves the protocol to the
//! next candidate, within a large but finite retry budget.

use crate::folder::Folder;
use crate::folder::FolderModel;
use crate::generator::NameGenerator;
use crate::generator::SUFFIX_LEN;
use crate::generator::gen_after;
use crate::generator::random_seed;
use crate::generator::seed_of;
use crate::generator::spec_name;
use crate::paths::compose_candidate;
use crate::paths::spec_candidate;
use crate::paths::spec_is_absolute;
use vstd::prelude::*;

verus! {

/// Retry budget of one acquisition: large enough to be practically
/// inexhaustible, small enough to keep every acquisition finite.
pub const RETRIES: u32 = 2147483648;

/// How one create attempt ended, as the surrounding program classifies the
/// filesystem's answer.
#[derive(Clone, Copy, PartialEq, Eq, Structural, Debug)]
pub enum Outcome {
    /// The directory was created; no entry with that name existed before.
    Created,
    /// An entry with the candidate name already existed.
    AlreadyExists,
    /// The creation failed for any other reason.
    OtherFailure,
}

/// Why an acquisition, a resolution or a removal failed.
#[derive(Clone, Copy, PartialEq, Eq, Structural, Debug)]
pub enum ErrorKind {
    /// The whole retry budget was spent on colliding names.
    NamespaceExhausted,
    /// Directory creation failed with something other than a collision.
    CreationFailed,
    /// The working directory could not be read while resolving a relative
    /// parent.
    ResolutionFailed,
    /// The recursive removal of an owned directory failed.
    RemovalFailed,
}

/// What the protocol asks for next: try to create a candidate path, or give
/// up.
pub enum Attempt {
    /// Attempt an atomic directory creation at this path.
    Create(String),
    /// Stop: the retry budget is exhausted.
    GiveUp(ErrorKind),
}

/// What follows from the outcome of a create attempt.
pub enum Decision {
    /// The directory exists now; this handle owns it.
    Finished(Folder),
    /// The name collided; ask for the next candidate.
    Retry,
    /// A terminal failure; the acquisition ends without a handle.
    Abort(ErrorKind),
}

/// The abstract state of one acquisition.
pub ghost struct AcquireModel {
    /// The absolute parent directory candidates are composed under.
    pub parent: Seq<char>,
    /// The caller's name prefix.
    pub prefix: Seq<char>,
    /// The generator state the next suffix will be drawn from.
    pub gen: NameGenerator,
    /// How many create attempts may still be made.
    pub remaining: u32,
    /// The candidate handed out and awaiting its outcome, if any.
    pub pending: Option<Seq<char>>,
}

/// One in-flight acquisition: the state between create attempts.
pub struct Acquire {
    parent: String,
    prefix: String,
    gen: NameGenerator,
    remaining: u32,
    pending: Option<String>,
}

impl View for Acquire {
    type V = AcquireModel;

    closed spec fn view(&self) -> AcquireModel {
        AcquireModel {
            parent: self.parent@,
            prefix: self.prefix@,
            gen: self.gen,
            remaining: self.remaining,
            pending: match self.pending {
                Option::Some(p) => Option::Some(p@),
                Option::None => Option::None,
            },
        }
    }
}

impl Acquire {
    /// Start an acquisition under an absolute parent, with the full retry
    /// budget and a generator seeded from the parent and prefix. Resolution
    /// of a relative parent must happen before any name is drawn, so the
    /// parent is required to be absolute here.
    pub fn new(parent: String, prefix: String) -> (a: Acquire)
        requires
            spec_is_absolute(parent@),
        ensures
            a@ == (AcquireModel {
                parent: parent@,
                prefix: prefix@,
                gen: NameGenerator::seeded(seed_of(prefix@)),
                remaining: RETRIES,
                pending: None,
            }),
    {
        Acquire::with_budget(parent, prefix, RETRIES)
    }

    /// Start an acquisition with an explicit retry budget. The
    /// namespace-exhausted path is reachable this way with a small budget.
    pub fn with_budget(parent: String, prefix: String, budget: u32) -> (a: Acquire)
        requires
            spec_is_absolute(parent@),
        ensures
            a@ == (AcquireModel {
                parent: parent@,
                prefix: prefix@,
                gen: NameGenerator::seeded(seed_of(prefix@)),
                remaining: budget,
                pending: None,
            }),
    {
        let seed = random_seed(parent.as_str(), prefix.as_str());
        Acquire { parent, prefix, gen: NameGenerator::from_seed(seed), remaining: budget, pending: None }
    }

    /// Compose the next candidate path to attempt, drawing one suffix and
    /// spending one unit of the budget; give up when the budget is spent.
    pub fn next_attempt(&mut self) -> (r: Attempt)
        requires
            old(self)@.pending is None,
        ensures
            old(self)@.remaining == 0 ==> (r matches Attempt::GiveUp(k) && k
                == ErrorKind::NamespaceExhausted && final(self)@ == old(self)@),
            old(self)@.remaining > 0 ==> (r matches Attempt::Create(c) && c@ == spec_candidate(
                old(self)@.parent,
                old(self)@.prefix,
                spec_name(old(self)@.gen, SUFFIX_LEN as nat),
            ) && final(self)@ == (AcquireModel {
                gen: gen_after(old(self)@.gen, SUFFIX_LEN as nat),
                remaining: (old(self)@.remaining - 1) as u32,
                pending: Some(c@),
                ..old(self)@
            })),
    {
        if self.remaining == 0 {
            return Attempt::GiveUp(ErrorKind::NamespaceExhausted);
        }
        self.remaining = self.remaining - 1;
        let suffix = self.gen.next_name(SUFFIX_LEN);
        let candidate = compose_candidate(
            self.parent.as_str(),
            self.prefix.as_str(),
            suffix.as_str(),
        );
        self.pending = Some(candidate.clone());
        Attempt::Create(candidate)
    }

    /// Decide from the outcome of the pending create attempt: a creation
    /// yields the owning handle, bound to exactly the candidate path the
    /// filesystem confirmed; a collision asks for a retry; anything else
    /// aborts at once.
    pub fn decide(&mut self, outcome: Outcome) -> (d: Decision)
        requires
            old(self)@.pending is Some,
        ensures
            final(self)@ == (AcquireModel { pending: None, ..old(self)@ }),
            outcome == Outcome::Created ==> (d matches Decision::Finished(f) && f@
                == (FolderModel { path: old(self)@.pending->0, released: false })),
            outcome == Outcome::AlreadyExists ==> d is Retry,
            outcome == Outcome::OtherFailure ==> (d matches Decision::Abort(k) && k
                == ErrorKind::CreationFailed),
    {
        let pending = self.pending.take();
        match outcome {
            Outcome::Created => Decision::Finished(Folder::from_created(pending.unwrap())),
            Outcome::AlreadyExists => Decision::Retry,
            Outcome::OtherFailure => Decision::Abort(ErrorKind::CreationFailed),
        }
    }
}

/// The parent's namespace after the first `i` successful creations: the
/// entries it started with and every path created so far.
pub open spec fn namespace_after(
    start: Set<Seq<char>>,
    created: Seq<Seq<char>>,
    i: int,
) -> Set<Seq<char>>
    decreases i,
{
    if i <= 0 {
        start
    } else {
        namespace_after(start, created, i - 1).insert(created[i - 1])
    }
}

proof fn lemma_namespace_monotone(
    start: Set<Seq<char>>,
    created: Seq<Seq<char>>,
    i: int,
    j: int,
    p: Seq<char>,
)
    requires
        0 <= i <= j,
        namespace_after(start, created, i).contains(p),
    ensures
        namespace_after(start, created, j).contains(p),
    decreases j - i,
{
    if i < j {
        lemma_namespace_monotone(start, created, i, j - 1, p);
    }
}

/// Law (uniqueness under load): any number of successful creations against
/// an atomic namespace — each succeeds only for a path absent at that moment,
/// and enters it — yields pairwise distinct paths, and all of them are in the
/// namespace afterwards. This is the sole mechanism behind the protocol: a
/// handle is finished only on a `Created` outcome, so its path was absent
/// when the filesystem confirmed it.
pub proof fn lemma_uniqueness_under_load(start: Set<Seq<char>>, created: Seq<Seq<char>>)
    requires
        forall|i: int|
            0 <= i < created.len() ==> !namespace_after(start, created, i).contains(created[i]),
    ensures
        forall|i: int, j: int| 0 <= i < j < created.len() ==> created[i] != created[j],
        forall|i: int|
            0 <= i < created.len() ==> namespace_after(
                start,
                created,
                created.len() as int,
            ).contains(created[i]),
{
    assert forall|i: int, j: int| 0 <= i < j < created.len() implies created[i] != created[j] by {
        assert(namespace_after(start, created, i + 1).contains(created[i]));
        lemma_namespace_monotone(start, created, i + 1, j, created[i]);
    }
    assert forall|i: int|
        0 <= i < created.len() implies namespace_after(
        start,
        created,
        created.len() as int,
    ).contains(created[i]) by {
        assert(namespace_after(start, created, i + 1).contains(created[i]));
        lemma_namespace_monotone(start, created, i + 1, created.len() as int, created[i]);
    }
}

} // verus!

//! Scoped, uniquely named temporary directories.
//!
//! A caller asks for a directory under a parent location and receives a
//! [`Folder`] handle bound to a freshly created, collision-free path. The
//! handle owns the directory: its cleanup routine hands the path back to be
//! removed exactly once, unless the caller releases ownership first with
//! [`Folder::into_path`].
//!
//! The crate itself performs no filesystem work. The acquisition protocol is
//! a state machine ([`Acquire`]): it draws candidate names from a seeded
//! generator, composes candidate paths, and decides, from the outcome of
//! each atomic create attempt, whether to finish, retry on a name collision,
//! or abort. The surrounding program performs the create and remove calls
//! and feeds the outcomes back.

pub mod acquire;
pub mod folder;
pub mod generator;
pub mod paths;

pub use acquire::Acquire;
pub use acquire::Attempt;
pub use acquire::Decision;
pub use acquire::ErrorKind;
pub use acquire::Outcome;
pub use folder::Folder;
pub use generator::NameGenerator;
pub use generator::random_seed;

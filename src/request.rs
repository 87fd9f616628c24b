use vstd::prelude::*;
use crate::stat::{Stat, Statx};

verus! {

/// The description that every failed metadata query carries.
pub open spec fn metadata_operation() -> Seq<char> {
    "getting file metadata"@
}

/// Relies on libc::AT_FDCWD, the directory descriptor that makes the `*at`
/// calls resolve a relative path against the current working directory;
/// libc defines it as -100 on Linux.
#[verifier::external_body]
fn cwd_dir_fd() -> (r: i32)
    ensures
        r == -100,
{
    libc::AT_FDCWD
}

/// A failure of a metadata query, with the context needed to diagnose it.
/// The underlying error code is kept as it came.
#[derive(Clone, Debug, PartialEq, Eq)]
pub struct MetadataError {
    /// The raw OS error code of the underlying failure.
    pub errno: i32,
    /// What was being done when the failure occurred.
    pub operation: String,
    /// The path that was queried, if the query was made by path.
    pub path: Option<String>,
    /// The file descriptor that was queried, if the query was made on one.
    pub fd: Option<i32>,
}

/// One outstanding metadata query by path. Completing it consumes it, so a
/// query is answered exactly once and never reused.
#[derive(Clone, Debug, PartialEq, Eq)]
pub struct MetadataRequest {
    /// The directory that a relative path is resolved against.
    pub dir_fd: i32,
    /// The queried path.
    pub path: String,
}

/// `r` is what a query for `path` hands back to its caller when the reactor
/// delivered `outcome`: the translated record on success, and otherwise the
/// same error code enriched with the operation and the path, with no
/// descriptor.
pub open spec fn delivers(
    path: Seq<char>,
    outcome: Result<Statx, i32>,
    r: Result<Stat, MetadataError>,
) -> bool {
    match outcome {
        Ok(s) => r == Ok::<Stat, MetadataError>(Stat::translated(s)),
        Err(code) => match r {
            Ok(_) => false,
            Err(e) => {
                &&& e.errno == code
                &&& e.operation@ == metadata_operation()
                &&& e.path.is_some()
                &&& e.path.unwrap()@ == path
                &&& e.fd.is_none()
            },
        },
    }
}

/// The outcome can be handed to the translator.
pub open spec fn outcome_well_formed(outcome: Result<Statx, i32>) -> bool {
    match outcome {
        Ok(s) => s.well_formed(),
        Err(_) => true,
    }
}

impl MetadataRequest {
    /// A query for the metadata of `path`, resolved relative to the current
    /// working directory.
    pub fn for_path(path: &str) -> (r: MetadataRequest)
        ensures
            r.dir_fd == -100,
            r.path@ == path@,
    {
        MetadataRequest { dir_fd: cwd_dir_fd(), path: path.to_string() }
    }

    /// Completes the query with what the reactor delivered for it.
    pub fn complete(self, outcome: Result<Statx, i32>) -> (r: Result<Stat, MetadataError>)
        requires
            outcome_well_formed(outcome),
        ensures
            delivers(self.path@, outcome, r),
    {
        match outcome {
            Ok(s) => Ok(Stat::from(s)),
            Err(code) => Err(
                MetadataError {
                    errno: code,
                    operation: "getting file metadata".to_string(),
                    path: Some(self.path),
                    fd: None,
                },
            ),
        }
    }
}

/// Completions are never cross-delivered: when two queries for different
/// paths complete, each caller receives the translation of its own record or
/// an error that names its own path, never the other one.
pub proof fn lemma_no_cross_delivery(
    path_a: Seq<char>,
    outcome_a: Result<Statx, i32>,
    r_a: Result<Stat, MetadataError>,
    path_b: Seq<char>,
    outcome_b: Result<Statx, i32>,
    r_b: Result<Stat, MetadataError>,
)
    requires
        path_a != path_b,
        delivers(path_a, outcome_a, r_a),
        delivers(path_b, outcome_b, r_b),
    ensures
        outcome_a is Ok ==> r_a == Ok::<Stat, MetadataError>(Stat::translated(outcome_a->Ok_0)),
        outcome_b is Ok ==> r_b == Ok::<Stat, MetadataError>(Stat::translated(outcome_b->Ok_0)),
        r_a is Err ==> r_a->Err_0.path.unwrap()@ == path_a && r_a->Err_0.path.unwrap()@ != path_b,
        r_b is Err ==> r_b->Err_0.path.unwrap()@ == path_b && r_b->Err_0.path.unwrap()@ != path_a,
{
}

} // verus!

//! Ingestion: a source file is hard-linked into a managed directory under its
//! own file name, and a name already present there is taken as ingested.
use vstd::prelude::*;
use vstd::string::StringExecFns;
use crate::paths::{file_name, file_name_of, join, join_spec};

verus! {

/// What to do for an ingestion request.
pub enum IngestPlan {
    /// The source is not a regular file.
    NotAFile,
    /// The destination already exists: it is the result, nothing is written.
    Reuse(String),
    /// Create a hard link from the source to this destination.
    Link(String),
}

/// Where a source file lands in `base_dir`: its file name joined to the directory.
pub open spec fn destination_spec(source: Seq<char>, base_dir: Seq<char>) -> Seq<char> {
    join_spec(base_dir, file_name_of(source))
}

pub open spec fn ingest_plan_spec(
    source: Seq<char>,
    base_dir: Seq<char>,
    source_is_file: bool,
    destination_exists: bool,
) -> (int, Seq<char>) {
    if !source_is_file {
        (0, Seq::empty())
    } else if destination_exists {
        (1, destination_spec(source, base_dir))
    } else {
        (2, destination_spec(source, base_dir))
    }
}

impl IngestPlan {
    /// The plan as a tag (0 not a file, 1 reuse, 2 link) and its destination.
    pub open spec fn view(&self) -> (int, Seq<char>) {
        match self {
            IngestPlan::NotAFile => (0, Seq::empty()),
            IngestPlan::Reuse(d) => (1, d@),
            IngestPlan::Link(d) => (2, d@),
        }
    }
}

/// The destination of `source_path_string` in `base_dir`.
pub fn ingest_destination(source_path_string: &str, base_dir: &str) -> (r: String)
    ensures
        r@ == destination_spec(source_path_string@, base_dir@),
{
    join(base_dir, file_name(source_path_string))
}

/// Decides an ingestion of `source_path_string` into `base_dir`, given whether
/// the source is a regular file and whether its destination already exists.
pub fn hard_link_file_to_base_dir(
    source_path_string: &str,
    base_dir: &str,
    source_is_file: bool,
    destination_exists: bool,
) -> (r: IngestPlan)
    ensures
        r.view() == ingest_plan_spec(
            source_path_string@,
            base_dir@,
            source_is_file,
            destination_exists,
        ),
{
    if !source_is_file {
        IngestPlan::NotAFile
    } else if destination_exists {
        IngestPlan::Reuse(ingest_destination(source_path_string, base_dir))
    } else {
        IngestPlan::Link(ingest_destination(source_path_string, base_dir))
    }
}

/// The result handed back for a plan once any link it asked for was attempted;
/// `link` is the outcome of that attempt (with the file system's message on failure).
pub fn ingest_result(plan: IngestPlan, link: Result<(), String>) -> (r: Result<String, String>)
    ensures
        match plan {
            IngestPlan::NotAFile => r is Err && r->Err_0@ == "Source path is not a file"@,
            IngestPlan::Reuse(d) => r == Ok::<String, String>(d),
            IngestPlan::Link(d) => match link {
                Ok(_) => r == Ok::<String, String>(d),
                Err(e) => r == Err::<String, String>(e),
            },
        },
{
    match plan {
        IngestPlan::NotAFile => Err(String::from_str("Source path is not a file")),
        IngestPlan::Reuse(d) => Ok(d),
        IngestPlan::Link(d) => match link {
            Ok(_) => Ok(d),
            Err(e) => Err(e),
        },
    }
}

/// Ingesting the same file name into the same directory twice gives the same
/// destination both times; once the first has linked it, the second only
/// reuses it and writes nothing.
pub proof fn lemma_ingestion_idempotent(
    first_source: Seq<char>,
    second_source: Seq<char>,
    base_dir: Seq<char>,
    first_destination_exists: bool,
)
    requires
        file_name_of(first_source) == file_name_of(second_source),
    ensures
        ({
            let first = ingest_plan_spec(first_source, base_dir, true, first_destination_exists);
            let second = ingest_plan_spec(second_source, base_dir, true, true);
            &&& first.1 == second.1
            &&& second.0 == 1
        }),
{
}

} // verus!

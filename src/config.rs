//! Turning the requested archives and options into one job per archive.
use vstd::prelude::*;

verus! {

/// One archive to extract, with the options of its batch.
#[derive(Clone, Debug)]
pub struct JobConfig {
    pub archive_path: String,
    pub output_root: String,
    pub keep_original: bool,
    pub overwrite_existing: bool,
}

/// Why a batch was refused before any job started.
#[derive(Clone, Debug, PartialEq, Eq)]
pub enum ConfigError {
    /// No archive was named.
    NoInput,
    /// The named archive does not exist.
    InputNotFound(String),
}

/// The output root used when none is given: `./temp`.
pub open spec fn default_output_root() -> Seq<char> {
    seq!['.', '/', 't', 'e', 'm', 'p']
}

/// The output root that a batch writes under.
pub open spec fn output_root_of(output: Option<String>) -> Seq<char> {
    match output {
        Some(o) => o@,
        None => default_output_root(),
    }
}

/// `k` is the first input that does not exist.
pub open spec fn first_missing(inputs: Seq<(String, bool)>, k: int) -> bool {
    &&& 0 <= k < inputs.len()
    &&& !inputs[k].1
    &&& forall|j: int| 0 <= j < k ==> inputs[j].1
}

/// Builds one job per input, in input order. Each input is a path and
/// whether it exists. The batch is refused when no path is given, or naming
/// the first path that does not exist; then no job is produced at all.
pub fn resolve_jobs(
    inputs: &Vec<(String, bool)>,
    output: Option<String>,
    keep_original: bool,
    overwrite_existing: bool,
) -> (r: Result<Vec<JobConfig>, ConfigError>)
    ensures
        inputs@.len() == 0 ==> r == Err::<Vec<JobConfig>, ConfigError>(ConfigError::NoInput),
        forall|k: int|
            first_missing(inputs@, k) ==> r == Err::<Vec<JobConfig>, ConfigError>(
                ConfigError::InputNotFound(inputs@[k].0),
            ),
        r is Ok <==> inputs@.len() > 0 && forall|i: int| 0 <= i < inputs@.len() ==> inputs@[i].1,
        r matches Ok(jobs) ==> {
            &&& jobs@.len() == inputs@.len()
            &&& forall|i: int|
                #![trigger jobs@[i]]
                0 <= i < jobs@.len() ==> {
                    &&& jobs@[i].archive_path == inputs@[i].0
                    &&& jobs@[i].output_root@ == output_root_of(output)
                    &&& jobs@[i].keep_original == keep_original
                    &&& jobs@[i].overwrite_existing == overwrite_existing
                }
        },
{
    let n = inputs.len();
    if n == 0 {
        return Err(ConfigError::NoInput);
    }
    let mut i: usize = 0;
    while i < n
        invariant
            n == inputs@.len(),
            i <= n,
            forall|j: int| 0 <= j < i ==> inputs@[j].1,
        decreases n - i,
    {
        if !inputs[i].1 {
            assert(first_missing(inputs@, i as int));
            assert forall|k: int| first_missing(inputs@, k) implies k == i by {
                if k < i {
                } else if k > i {
                    assert(inputs@[i as int].1);
                }
            }
            return Err(ConfigError::InputNotFound(inputs[i].0.clone()));
        }
        i = i + 1;
    }
    let root: String = match output {
        Some(o) => o,
        None => {
            proof { reveal_strlit("./temp"); }
            let d = String::from_str("./temp");
            assert(d@ =~= default_output_root());
            d
        },
    };
    let mut jobs: Vec<JobConfig> = Vec::new();
    let mut i: usize = 0;
    while i < n
        invariant
            n == inputs@.len(),
            i <= n,
            root@ == output_root_of(output),
            jobs@.len() == i,
            forall|j: int|
                #![trigger jobs@[j]]
                0 <= j < i ==> {
                    &&& jobs@[j].archive_path == inputs@[j].0
                    &&& jobs@[j].output_root@ == output_root_of(output)
                    &&& jobs@[j].keep_original == keep_original
                    &&& jobs@[j].overwrite_existing == overwrite_existing
                },
        decreases n - i,
    {
        jobs.push(
            JobConfig {
                archive_path: inputs[i].0.clone(),
                output_root: root.clone(),
                keep_original,
                overwrite_existing,
            },
        );
        i = i + 1;
    }
    Ok(jobs)
}

} // verus!

//! Where a scan starts: the directory that was named, or else the workspace
//! root that a helper program names, or else the current directory.

use vstd::prelude::*;

use crate::probe::{Invocation, Outcome};
use crate::text::{texts, trim_end, trimmed_end};

verus! {

/// Name of the helper program that knows the workspace root.
pub open spec fn helper() -> Seq<char> {
    "ghq"@
}

/// The directory in which a scan starts: the one that was named; where none
/// was, what the helper wrote, without the white space at its end; and where
/// the helper could not be started, the current directory.
pub open spec fn root_dir(input: Option<String>, answer: Outcome) -> Seq<char> {
    match input {
        Some(named) => named@,
        None => match answer {
            Outcome::Exited { stdout, .. } => trimmed_end(stdout@),
            Outcome::NotStarted => "."@,
        },
    }
}

/// The invocation of the helper that is to be run before the root can be
/// told: none where a directory was named.
pub fn root_lookup(input: &Option<String>) -> (lookup: Option<Invocation>)
    ensures
        lookup is Some <==> input is None,
        lookup matches Some(invocation) ==> {
            &&& invocation.program@ == helper()
            &&& texts(invocation.arguments@) == seq!["root"@]
            &&& invocation.directory@ == "."@
        },
{
    match input {
        Some(_) => None,
        None => {
            let mut arguments: Vec<String> = Vec::new();
            arguments.push("root".to_owned());
            assert(texts(arguments@) =~= seq!["root"@]);
            Some(Invocation { program: "ghq".to_owned(), arguments, directory: ".".to_owned() })
        },
    }
}

/// The directory in which the scan starts. `answer` is what came of the
/// helper; it is not looked at where a directory was named.
pub fn get_rootdir(input: &Option<String>, answer: &Outcome) -> (root: String)
    ensures
        root@ == root_dir(*input, *answer),
{
    match input {
        Some(named) => named.clone(),
        None => match answer {
            Outcome::Exited { stdout, .. } => trim_end(stdout.as_str()).to_owned(),
            Outcome::NotStarted => ".".to_owned(),
        },
    }
}

} // verus!

//! The brief that heads the usage text.
use vstd::prelude::*;
use vstd::string::StringExecFns;

verus! {

/// The brief for a program invoked as `program`: a title line, then one
/// usage line for a run, one for help and one for the version.
pub open spec fn spec_usage_brief(program: Seq<char>) -> Seq<char> {
    "Echo benchmark.\n\nUsage:\n  "@ + program
        + " [ -a <address> ] [ -l <length> ] [ -c <number> ] [ -t <duration> ]\n  "@ + program
        + " (-h | --help)\n  "@ + program + " --version"@
}

/// Builds the usage brief for a program invoked as `program`.
pub fn usage_brief(program: &str) -> (r: String)
    ensures
        r@ == spec_usage_brief(program@),
{
    let mut brief = String::from_str("Echo benchmark.\n\nUsage:\n  ");
    brief.append(program);
    brief.append(" [ -a <address> ] [ -l <length> ] [ -c <number> ] [ -t <duration> ]\n  ");
    brief.append(program);
    brief.append(" (-h | --help)\n  ");
    brief.append(program);
    brief.append(" --version");
    brief
}

} // verus!

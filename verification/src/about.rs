//! The banner shown by the command line's `--help`.

use vstd::prelude::*;
use vstd::string::*;

verus! {

/// The text of the banner: name and version on one line, the authors below.
pub open spec fn about_text(name: Seq<char>, version: Seq<char>, authors: Seq<char>) -> Seq<char> {
    name + seq![' '] + version + seq!['\n'] + authors
}

/// Builds the banner from the package's name, version and authors.
pub fn clap_about(name: &str, version: &str, authors: &str) -> (banner: String)
    ensures
        banner@ == about_text(name@, version@, authors@),
{
    proof {
        reveal_strlit(" ");
        reveal_strlit("\n");
    }
    let mut banner = String::from_str(name);
    banner.append(" ");
    banner.append(version);
    banner.append("\n");
    banner.append(authors);
    assert(" "@ =~= seq![' ']);
    assert("\n"@ =~= seq!['\n']);
    banner
}

} // verus!

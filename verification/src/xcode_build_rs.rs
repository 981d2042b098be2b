//! The earlier, smaller build helper: it shares the architecture handling of
//! [`crate::xcode_env`] and builds without feature flags or a manifest path.
use vstd::prelude::*;

pub use crate::xcode_env::{Archs, ArchsError, parse_archs};

verus! {

/// The arguments of `cargo rustc` for a static library build of the crate in
/// the working directory.
pub open spec fn plain_rustc_arg_seq(target: Seq<char>, release: bool) -> Seq<Seq<char>> {
    seq!["rustc"@, "--crate-type"@, "staticlib"@, "--lib"@, "--target"@, target]
        + (if release { seq!["--release"@] } else { Seq::empty() })
}

/// For every target, a build runs `cargo rustc` for a static library of
/// that target, and a release build adds exactly one trailing `--release`.
pub proof fn lemma_plain_release_adds_trailing_flag(target: Seq<char>)
    ensures
        plain_rustc_arg_seq(target, false) == seq!["rustc"@, "--crate-type"@, "staticlib"@, "--lib"@, "--target"@, target],
        plain_rustc_arg_seq(target, true) == plain_rustc_arg_seq(target, false).push("--release"@),
{
    assert(plain_rustc_arg_seq(target, false) =~= seq!["rustc"@, "--crate-type"@, "staticlib"@, "--lib"@, "--target"@, target]);
    assert(plain_rustc_arg_seq(target, true) =~= plain_rustc_arg_seq(target, false).push("--release"@));
}

/// The arguments with which `cargo` is run to build the static library.
pub fn rustc_args(target: &str, release: bool) -> (args: Vec<String>)
    ensures
        args.deep_view() == plain_rustc_arg_seq(target@, release),
        args.deep_view().take(6) == seq!["rustc"@, "--crate-type"@, "staticlib"@, "--lib"@, "--target"@, target@],
        args.deep_view().len() == (if release { 7int } else { 6int }),
        release ==> args.deep_view().last() == "--release"@,
{
    proof {
        lemma_plain_release_adds_trailing_flag(target@);
        assert(plain_rustc_arg_seq(target@, release).take(6) =~= seq!["rustc"@, "--crate-type"@, "staticlib"@, "--lib"@, "--target"@, target@]);
    }
    let mut args: Vec<String> = Vec::new();
    args.push("rustc".to_owned());
    args.push("--crate-type".to_owned());
    args.push("staticlib".to_owned());
    args.push("--lib".to_owned());
    args.push("--target".to_owned());
    args.push(target.to_owned());
    if release {
        args.push("--release".to_owned());
    }
    assert(args.deep_view() =~= plain_rustc_arg_seq(target@, release));
    args
}

} // verus!

//! Decisions taken from the environment that Xcode sets for a build script,
//! and the `cargo rustc` command line that follows from them.
use vstd::prelude::*;
use crate::config::{Flags, flag_args};

verus! {

/// Whether to build with the release profile, given the value of the
/// `CONFIGURATION` variable (`None` when it is unset or not Unicode).
/// Only `Debug` selects a debug build; `Release`, any other value and no value
/// select a release build.
pub fn release_profile(configuration: Option<String>) -> (release: bool)
    ensures
        release == !(configuration matches Some(c) && c@ == "Debug"@),
{
    proof {
        reveal_strlit("Debug");
        reveal_strlit("Release");
        assert("Release"@.len() != "Debug"@.len());
    }
    match configuration {
        Some(c) => {
            if c == "Release".to_owned() {
                true
            } else if c == "Debug".to_owned() {
                false
            } else {
                true
            }
        },
        None => true,
    }
}

/// Whether the build targets a simulator, given the value of the
/// `LLVM_TARGET_TRIPLE_SUFFIX` variable (`None` when it is unset or not Unicode).
pub fn is_simulator(suffix: Option<String>) -> (simulator: bool)
    ensures
        simulator == (suffix matches Some(s) && s@ == "-simulator"@),
{
    match suffix {
        Some(s) => s == "-simulator".to_owned(),
        None => false,
    }
}

/// The architecture Xcode builds for.
#[derive(Debug, Clone, Copy, PartialEq, Eq, Structural)]
pub enum Archs {
    X86_64,
    Arm64,
}

/// Why the `ARCHS` variable names no architecture.
#[derive(Debug)]
pub enum ArchsError {
    /// `ARCHS` is unset, or not Unicode.
    Missing,
    /// `ARCHS` holds this value, which is no known architecture.
    Unrecognised(String),
}

/// The architecture a value of `ARCHS` names, if any.
pub open spec fn archs_named(s: Seq<char>) -> Option<Archs> {
    if s == "x86_64"@ {
        Some(Archs::X86_64)
    } else if s == "arm64"@ {
        Some(Archs::Arm64)
    } else {
        None
    }
}

impl Archs {
    pub fn try_from_str(str: &str) -> (r: Result<Archs, ArchsError>)
        ensures
            match archs_named(str@) {
                Some(a) => r matches Ok(b) && b == a,
                None => r matches Err(ArchsError::Unrecognised(s)) && s@ == str@,
            },
    {
        proof {
            reveal_strlit("x86_64");
            reveal_strlit("arm64");
        }
        let given = str.to_owned();
        if given == "x86_64".to_owned() {
            Ok(Archs::X86_64)
        } else if given == "arm64".to_owned() {
            Ok(Archs::Arm64)
        } else {
            Err(ArchsError::Unrecognised(given))
        }
    }
}

/// The architecture named by the value of `ARCHS` (`None` when it is unset or
/// not Unicode).
pub fn parse_archs(archs: Option<String>) -> (r: Result<Archs, ArchsError>)
    ensures
        archs is None ==> r matches Err(ArchsError::Missing),
        archs matches Some(s) ==> match archs_named(s@) {
            Some(a) => r matches Ok(b) && b == a,
            None => r matches Err(ArchsError::Unrecognised(t)) && t@ == s@,
        },
{
    match archs {
        None => Err(ArchsError::Missing),
        Some(s) => Archs::try_from_str(s.as_str()),
    }
}

/// The arguments of `cargo rustc` for a static library build: the fixed part,
/// then the feature flags, then `--release` for a release build.
pub open spec fn rustc_arg_seq(target: Seq<char>, release: bool, flags: Seq<Seq<char>>, manifest_dir: Seq<char>) -> Seq<Seq<char>> {
    seq!["rustc"@, "--crate-type"@, "staticlib"@, "--lib"@, "--target"@, target, "--manifest-path"@, manifest_dir]
        + flags
        + (if release { seq!["--release"@] } else { Seq::empty() })
}

/// The layout of the command line: `cargo rustc` for a static library of
/// the target, with the manifest path, then every given flag argument,
/// unchanged and in order, and `--release` at the end exactly for a release
/// build.
pub proof fn lemma_rustc_arg_layout(target: Seq<char>, release: bool, flags: Seq<Seq<char>>, manifest_dir: Seq<char>)
    ensures
        rustc_arg_seq(target, release, flags, manifest_dir).len() == 8 + flags.len() + (if release { 1int } else { 0int }),
        rustc_arg_seq(target, release, flags, manifest_dir).take(8)
            == seq!["rustc"@, "--crate-type"@, "staticlib"@, "--lib"@, "--target"@, target, "--manifest-path"@, manifest_dir],
        rustc_arg_seq(target, release, flags, manifest_dir).subrange(8, 8 + flags.len() as int) == flags,
        release ==> rustc_arg_seq(target, release, flags, manifest_dir).last() == "--release"@,
{
    let a = rustc_arg_seq(target, release, flags, manifest_dir);
    assert(a.take(8) =~= seq!["rustc"@, "--crate-type"@, "staticlib"@, "--lib"@, "--target"@, target, "--manifest-path"@, manifest_dir]);
    assert(a.subrange(8, 8 + flags.len() as int) =~= flags);
}

/// Where the feature pairs of the flags begin on the command line: after the
/// manifest path, and after `--no-default-features` when that is passed.
pub open spec fn feature_pairs_start(f: crate::config::FlagsView) -> int {
    8 + if f.default_features { 0int } else { 1int }
}

/// Every requested feature of the flags reaches the command line, right after
/// its own `--features`, whether or not default features stay on; and
/// `--no-default-features` follows the manifest path exactly when they are off.
pub proof fn lemma_rustc_args_pass_features(target: Seq<char>, release: bool, f: crate::config::FlagsView, manifest_dir: Seq<char>)
    ensures
        forall|i: int| 0 <= i < f.features.len() ==>
            (#[trigger] rustc_arg_seq(target, release, flag_args(f), manifest_dir)[feature_pairs_start(f) + 2 * i]) == "--features"@,
        forall|i: int| 0 <= i < f.features.len() ==>
            rustc_arg_seq(target, release, flag_args(f), manifest_dir)[feature_pairs_start(f) + 2 * i + 1] == #[trigger] f.features[i],
        !f.default_features <==> (flag_args(f).len() > 0
            && rustc_arg_seq(target, release, flag_args(f), manifest_dir)[8] == "--no-default-features"@),
{
    crate::config::lemma_flag_args_shape(f);
    lemma_rustc_arg_layout(target, release, flag_args(f), manifest_dir);
    let a = rustc_arg_seq(target, release, flag_args(f), manifest_dir);
    let fl = flag_args(f);
    assert forall|k: int| 0 <= k < fl.len() implies a[8 + k] == fl[k] by {
        assert(a.subrange(8, 8 + fl.len() as int)[k] == a[8 + k]);
    }
    assert forall|i: int| 0 <= i < f.features.len() implies
        (#[trigger] a[feature_pairs_start(f) + 2 * i]) == "--features"@ by {
        let o = if f.default_features { 0int } else { 1int };
        let feature = f.features[i];
        assert(fl[o + 2 * i] == crate::config::features_flag() && fl[o + 2 * i + 1] == feature);
        assert(a[8 + (o + 2 * i)] == fl[o + 2 * i]);
    }
    assert forall|i: int| 0 <= i < f.features.len() implies
        a[feature_pairs_start(f) + 2 * i + 1] == #[trigger] f.features[i] by {
        let o = if f.default_features { 0int } else { 1int };
        let feature = f.features[i];
        assert(fl[o + 2 * i] == crate::config::features_flag() && fl[o + 2 * i + 1] == feature);
        assert(a[8 + (o + 2 * i + 1)] == fl[o + 2 * i + 1]);
    }
    if fl.len() > 0 {
        assert(a[8int] == fl[0]);
    }
}

/// The arguments with which `cargo` is run to build the static library.
pub fn rustc_args(target: &str, release: bool, flags: &Flags, manifest_dir: &str) -> (args: Vec<String>)
    ensures
        args.deep_view() == rustc_arg_seq(target@, release, flag_args(flags@), manifest_dir@),
        args.deep_view().len() == 8 + flag_args(flags@).len() + (if release { 1int } else { 0int }),
        args.deep_view().take(8)
            == seq!["rustc"@, "--crate-type"@, "staticlib"@, "--lib"@, "--target"@, target@, "--manifest-path"@, manifest_dir@],
        args.deep_view().subrange(8, 8 + flag_args(flags@).len() as int) == flag_args(flags@),
        release ==> args.deep_view().last() == "--release"@,
{
    proof {
        lemma_rustc_arg_layout(target@, release, flag_args(flags@), manifest_dir@);
    }
    let mut args: Vec<String> = Vec::new();
    args.push("rustc".to_owned());
    args.push("--crate-type".to_owned());
    args.push("staticlib".to_owned());
    args.push("--lib".to_owned());
    args.push("--target".to_owned());
    args.push(target.to_owned());
    args.push("--manifest-path".to_owned());
    args.push(manifest_dir.to_owned());
    let ghost fixed = args.deep_view();
    let mut extra = flags.into_args();
    let ghost extra_view = extra.deep_view();
    args.append(&mut extra);
    assert(args.deep_view() =~= fixed + extra_view);
    if release {
        let ghost before = args.deep_view();
        args.push("--release".to_owned());
        assert(args.deep_view() =~= before + seq!["--release"@]);
    }
    assert(args.deep_view() =~= rustc_arg_seq(target@, release, flag_args(flags@), manifest_dir@));
    args
}

/// A release build runs `cargo` with the arguments of the debug build and one
/// more, a trailing `--release`.
pub proof fn lemma_release_adds_trailing_flag(target: Seq<char>, flags: Seq<Seq<char>>, manifest_dir: Seq<char>)
    ensures
        rustc_arg_seq(target, true, flags, manifest_dir) == rustc_arg_seq(target, false, flags, manifest_dir).push("--release"@),
{
    assert(rustc_arg_seq(target, true, flags, manifest_dir) =~= rustc_arg_seq(target, false, flags, manifest_dir).push("--release"@));
}

/// What `PathBuf::pop` leaves of a path: its parent, or the path itself when
/// it has none.
pub uninterp spec fn popped_path(path: Seq<char>) -> Seq<char>;

/// Whether `std::path::Path` compares two paths equal (component by component).
pub uninterp spec fn paths_equal(a: Seq<char>, b: Seq<char>) -> bool;

/// `std::path::PathBuf::pop` on a UTF-8 path. Claimed: the result is the one
/// [`popped_path`] names, and, as `pop` truncates, a prefix of the path.
#[verifier::external_body]
fn pop_path(path: &str) -> (r: String)
    ensures
        r@ == popped_path(path@),
        r@.len() <= path@.len(),
        r@ == path@.take(r@.len() as int),
{
    let mut buf = std::path::PathBuf::from(path);
    buf.pop();
    buf.to_string_lossy().into_owned()
}

/// `==` on `std::path::Path`. Claimed: the result is the one [`paths_equal`]
/// names, and identical texts compare equal.
#[verifier::external_body]
fn same_path(a: &str, b: &str) -> (r: bool)
    ensures
        r == paths_equal(a@, b@),
        a@ == b@ ==> r,
{
    std::path::Path::new(a) == std::path::Path::new(b)
}

/// Whether an entry of a path list is a UTF-8 path equal to `dir`.
pub open spec fn entry_is_path(entry: Option<String>, dir: Seq<char>) -> bool {
    match entry {
        Some(p) => paths_equal(p@, dir),
        None => false,
    }
}

/// Whether an entry of a path list is a UTF-8 path with exactly the text `dir`.
pub open spec fn entry_has_text(entry: Option<String>, dir: Seq<char>) -> bool {
    match entry {
        Some(p) => p@ == dir,
        None => false,
    }
}

/// Whether the directory that holds `bin_path` is one of `paths`, compared as
/// paths. An entry that is not UTF-8 is given as `None`: it cannot equal the
/// directory of a UTF-8 path, component by component. A directory listed with
/// exactly the same text is always found.
pub fn bin_dir_listed(paths: &[Option<String>], bin_path: &str) -> (listed: bool)
    ensures
        listed == exists|i: int| 0 <= i < paths@.len() && entry_is_path(#[trigger] paths@[i], popped_path(bin_path@)),
        (exists|i: int| 0 <= i < paths@.len() && entry_has_text(#[trigger] paths@[i], popped_path(bin_path@))) ==> listed,
{
    let bin_dir = pop_path(bin_path);
    let mut i: usize = 0;
    while i < paths.len()
        invariant
            i <= paths@.len(),
            bin_dir@ == popped_path(bin_path@),
            forall|j: int| 0 <= j < i ==> !entry_is_path(#[trigger] paths@[j], popped_path(bin_path@))
                && !entry_has_text(paths@[j], popped_path(bin_path@)),
        decreases paths@.len() - i,
    {
        match &paths[i] {
            Some(p) => {
                if same_path(p.as_str(), bin_dir.as_str()) {
                    return true;
                }
            },
            None => {},
        }
        i = i + 1;
    }
    false
}

} // verus!

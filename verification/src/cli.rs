//! The command line of `cargo xcode-build-rs`, as plain values.
use vstd::prelude::*;

verus! {

/// `cargo xcode-build-rs`, the one subcommand.
pub enum TopLevel {
    XCodeBuild(XcodeBuild),
}

pub struct XcodeBuild {
    pub mode: Mode,
    pub options: Options,
}

/// What the invocation is for.
#[derive(Debug, Clone, Copy, PartialEq, Eq, Structural)]
pub enum Mode {
    /// Run in XCode
    Xcode,
    /// Run a test build for an iOS simulator
    Test,
}

pub struct Options {
    /// By default, doesn't display colour because this can be annoying in the XCode terminal
    pub colour: bool,
    /// The --manifest-path option to pass to `cargo rustc builds`.
    /// Often you can pass `.`
    pub manifest_dir: String,
}

impl TopLevel {
    pub open spec fn spec_inner(&self) -> &XcodeBuild {
        match self {
            TopLevel::XCodeBuild(inner) => inner,
        }
    }

    fn inner(&self) -> (r: &XcodeBuild)
        ensures
            r == self.spec_inner(),
    {
        match self {
            TopLevel::XCodeBuild(inner) => inner,
        }
    }

    pub fn options(&self) -> (r: &Options)
        ensures
            r == self.spec_inner().options,
    {
        &self.inner().options
    }

    pub fn mode(&self) -> (r: &Mode)
        ensures
            r == self.spec_inner().mode,
    {
        &self.inner().mode
    }
}

/// What `camino::Utf8Path::join` gives for a base path and a path to adjoin.
pub uninterp spec fn joined_path(base: Seq<char>, part: Seq<char>) -> Seq<char>;

/// A path of one plain component: no separator of any platform, no drive prefix.
pub open spec fn plain_component(part: Seq<char>) -> bool {
    forall|i: int| 0 <= i < part.len() ==> part[i] != '/' && part[i] != '\\' && part[i] != ':'
}

/// `camino::Utf8Path::join`. Claimed: the result is the one [`joined_path`]
/// names; and, as `PathBuf::push` documents, a plain component is appended to
/// a base without backslashes after at most one separator. A base with a
/// backslash may be a Windows verbatim path, which `push` normalizes; nothing
/// is claimed of its shape then.
#[verifier::external_body]
fn join_path(base: &str, part: &str) -> (r: String)
    ensures
        r@ == joined_path(base@, part@),
        plain_component(part@) && !base@.contains('\\') ==> r@ == base@ + r@.subrange(base@.len() as int, r@.len() - part@.len()) + part@,
        plain_component(part@) && !base@.contains('\\') ==> base@.len() + part@.len() <= r@.len() <= base@.len() + part@.len() + 1,
{
    camino::Utf8Path::new(base).join(part).into_string()
}

impl Options {
    /// Specifically to the *file* `Cargo.toml`, *not directory*
    pub fn manifest_path(&self) -> (path: String)
        ensures
            path@ == joined_path(self.manifest_dir@, "Cargo.toml"@),
            !self.manifest_dir@.contains('\\') ==> exists|sep: Seq<char>| sep.len() <= 1
                && path@ == self.manifest_dir@ + sep + "Cargo.toml"@,
    {
        proof {
            reveal_strlit("Cargo.toml");
        }
        join_path(self.manifest_dir.as_str(), "Cargo.toml")
    }
}

} // verus!

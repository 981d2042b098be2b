use vstd::prelude::*;

verus! {

/// The flag that precedes each requested feature.
pub open spec fn features_flag() -> Seq<char> {
    "--features"@
}

/// The arguments that select the crate features of an iOS build, in order:
/// `--no-default-features` when default features are off, then one
/// `--features <name>` pair per requested feature.
pub open spec fn feature_pairs(features: Seq<Seq<char>>) -> Seq<Seq<char>>
    decreases features.len(),
{
    if features.len() == 0 {
        Seq::empty()
    } else {
        feature_pairs(features.drop_last()) + seq![features_flag(), features.last()]
    }
}

/// Cargo feature selection for iOS builds.
#[derive(Debug)]
pub struct Flags {
    features: Vec<String>,
    /// Whether or not to pass the flag `--no-default-features` to `cargo rustc`
    default_features: bool,
}

/// Abstract content of [`Flags`].
pub struct FlagsView {
    pub features: Seq<Seq<char>>,
    pub default_features: bool,
}

impl View for Flags {
    type V = FlagsView;

    closed spec fn view(&self) -> FlagsView {
        FlagsView { features: self.features.deep_view(), default_features: self.default_features }
    }
}

pub open spec fn flag_args(f: FlagsView) -> Seq<Seq<char>> {
    (if f.default_features { Seq::empty() } else { seq!["--no-default-features"@] })
        + feature_pairs(f.features)
}

proof fn lemma_feature_pair_at(features: Seq<Seq<char>>, i: int)
    requires
        0 <= i < features.len(),
    ensures
        feature_pairs(features).len() == 2 * features.len(),
        feature_pairs(features)[2 * i] == features_flag(),
        feature_pairs(features)[2 * i + 1] == features[i],
    decreases features.len(),
{
    let rest = features.drop_last();
    let whole = feature_pairs(rest) + seq![features_flag(), features.last()];
    assert(feature_pairs(features) == whole);
    if i < features.len() - 1 {
        lemma_feature_pair_at(rest, i);
        assert(rest[i] == features[i]);
    } else {
        lemma_feature_pairs_len(rest);
    }
}

proof fn lemma_feature_pairs_len(features: Seq<Seq<char>>)
    ensures
        feature_pairs(features).len() == 2 * features.len(),
    decreases features.len(),
{
    if features.len() > 0 {
        lemma_feature_pairs_len(features.drop_last());
    }
}

/// Every requested feature is passed right after its own `--features`, in
/// the order requested, and nothing else is passed.
pub proof fn lemma_feature_pairs(features: Seq<Seq<char>>)
    ensures
        feature_pairs(features).len() == 2 * features.len(),
        forall|i: int| 0 <= i < features.len() ==> (#[trigger] feature_pairs(features)[2 * i]) == features_flag(),
        forall|i: int| 0 <= i < features.len() ==> feature_pairs(features)[2 * i + 1] == #[trigger] features[i],
{
    lemma_feature_pairs_len(features);
    assert forall|i: int| 0 <= i < features.len() implies (#[trigger] feature_pairs(features)[2 * i]) == features_flag() by {
        lemma_feature_pair_at(features, i);
    }
    assert forall|i: int| 0 <= i < features.len() implies feature_pairs(features)[2 * i + 1] == #[trigger] features[i] by {
        lemma_feature_pair_at(features, i);
    }
}

/// The arguments of a set of flags: `--no-default-features` comes first
/// exactly when default features are off, then one `--features <name>` pair
/// per requested feature, in order, and nothing else.
pub proof fn lemma_flag_args_shape(f: FlagsView)
    ensures
        flag_args(f).len() == 2 * f.features.len() + (if f.default_features { 0int } else { 1int }),
        !f.default_features <==> (flag_args(f).len() > 0 && flag_args(f)[0] == "--no-default-features"@),
        forall|i: int| 0 <= i < f.features.len() ==> {
            let off = if f.default_features { 0int } else { 1int };
            flag_args(f)[off + 2 * i] == features_flag() && flag_args(f)[off + 2 * i + 1] == #[trigger] f.features[i]
        },
{
    lemma_feature_pairs(f.features);
    reveal_strlit("--features");
    reveal_strlit("--no-default-features");
    let pre: Seq<Seq<char>> = if f.default_features { Seq::empty() } else { seq!["--no-default-features"@] };
    let pairs = feature_pairs(f.features);
    assert(flag_args(f) == pre + pairs);
    assert forall|i: int| 0 <= i < f.features.len() implies {
        let off = if f.default_features { 0int } else { 1int };
        flag_args(f)[off + 2 * i] == features_flag() && flag_args(f)[off + 2 * i + 1] == #[trigger] f.features[i]
    } by {
        assert(pairs[2 * i] == features_flag() && pairs[2 * i + 1] == f.features[i]);
        assert((pre + pairs)[pre.len() + 2 * i] == pairs[2 * i]);
        assert((pre + pairs)[pre.len() + 2 * i + 1] == pairs[2 * i + 1]);
    }
    if f.default_features && f.features.len() > 0 {
        lemma_feature_pair_at(f.features, 0);
        assert((pre + pairs)[0] == pairs[0]);
        assert("--features"@.len() != "--no-default-features"@.len());
    }
    if !f.default_features {
        assert((pre + pairs)[0] == pre[0]);
    }
}

/// Default flags add no argument to the build.
pub proof fn lemma_default_flags_add_nothing(f: FlagsView)
    requires
        f.features.len() == 0,
        f.default_features,
    ensures
        flag_args(f) == Seq::<Seq<char>>::empty(),
{
    assert(flag_args(f) =~= Seq::<Seq<char>>::empty());
}

impl Flags {
    /// Default for `default_features`
    pub fn default_default_features() -> (r: bool)
        ensures
            r,
    {
        true
    }

    pub fn into_args(&self) -> (args: Vec<String>)
        ensures
            args.deep_view() == flag_args(self@),
    {
        let mut args: Vec<String> = Vec::new();
        if !self.default_features {
            args.push("--no-default-features".to_owned());
        }
        let ghost prefix = args.deep_view();
        let mut i: usize = 0;
        while i < self.features.len()
            invariant
                i <= self.features.len(),
                prefix == (if self.default_features { Seq::<Seq<char>>::empty() } else { seq!["--no-default-features"@] }),
                args.deep_view() == prefix + feature_pairs(self.features.deep_view().take(i as int)),
            decreases self.features.len() - i,
        {
            let ghost before = args.deep_view();
            let ghost next = self.features.deep_view().take(i + 1);
            assert(next.drop_last() =~= self.features.deep_view().take(i as int));
            assert(next.last() == self.features[i as int]@);
            args.push("--features".to_owned());
            args.push(self.features[i].clone());
            assert(args.deep_view() =~= before + seq![features_flag(), self.features[i as int]@]);
            i = i + 1;
        }
        assert(self.features.deep_view().take(i as int) =~= self.features.deep_view());
        args
    }
}

impl Flags {
    /// Flags with the given features, and default features on or off.
    pub fn new(features: Vec<String>, default_features: bool) -> (r: Flags)
        ensures
            r@.features == features.deep_view(),
            r@.default_features == default_features,
    {
        Flags { features, default_features }
    }
}

impl Flags {
    /// The requested features.
    pub fn features(&self) -> (r: &Vec<String>)
        ensures
            r.deep_view() == self@.features,
    {
        &self.features
    }

    /// Whether default features stay on.
    pub fn default_features(&self) -> (r: bool)
        ensures
            r == self@.default_features,
    {
        self.default_features
    }
}

impl Clone for Flags {
    fn clone(&self) -> (r: Self)
        ensures
            r@ == self@,
    {
        let mut features: Vec<String> = Vec::new();
        let mut i: usize = 0;
        while i < self.features.len()
            invariant
                i <= self.features.len(),
                features.deep_view() == self.features.deep_view().take(i as int),
            decreases self.features.len() - i,
        {
            let ghost before = features.deep_view();
            features.push(self.features[i].clone());
            assert(features.deep_view() =~= before.push(self.features[i as int]@));
            i = i + 1;
            assert(features.deep_view() =~= self.features.deep_view().take(i as int));
        }
        assert(self.features.deep_view().take(i as int) =~= self.features.deep_view());
        Flags { features, default_features: self.default_features }
    }
}

impl Default for Flags {
    /// No extra features, default features on.
    fn default() -> (r: Self)
        ensures
            r@.features == Seq::<Seq<char>>::empty(),
            r@.default_features,
    {
        Flags { default_features: Flags::default_default_features(), features: Vec::new() }
    }
}

/// Configuration of the build, as read from `package.metadata.xcode-build-rs`.
#[derive(Debug)]
pub struct Config {
    /// What features to enable for iOS builds
    ios: Flags,
}

/// Abstract content of [`Config`].
pub struct ConfigView {
    pub ios: FlagsView,
}

impl View for Config {
    type V = ConfigView;

    closed spec fn view(&self) -> ConfigView {
        ConfigView { ios: self.ios@ }
    }
}

impl Default for Config {
    /// The default iOS flags.
    fn default() -> (r: Self)
        ensures
            r@.ios.features == Seq::<Seq<char>>::empty(),
            r@.ios.default_features,
    {
        Config { ios: Flags::default() }
    }
}

impl Config {
    /// A configuration with the given iOS flags.
    pub fn new(ios: Flags) -> (r: Config)
        ensures
            r@.ios == ios@,
    {
        Config { ios }
    }

    pub fn ios_feature_flags(&self) -> (r: Flags)
        ensures
            r@ == self@.ios,
    {
        self.ios.clone()
    }
}

} // verus!

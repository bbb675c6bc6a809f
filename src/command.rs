use vstd::prelude::*;
use vstd::string::*;

verus! {

/// The cargo subcommand that builds.
pub const BUILD: &'static str = "build";

/// The flag that names the package to build.
pub const PACKAGE_FLAG: &'static str = "-p";

/// The flag that asks for an optimised build.
pub const RELEASE_FLAG: &'static str = "--release";

/// The flag whose value lists the features to enable.
pub const FEATURES_FLAG: &'static str = "--features";

/// The arguments to cargo that build one package spec.
pub open spec fn build_args(pkg: Seq<char>, release: bool, features: Option<Seq<char>>) -> Seq<
    Seq<char>,
> {
    seq![BUILD@, PACKAGE_FLAG@, pkg] + (if release {
        seq![RELEASE_FLAG@]
    } else {
        Seq::empty()
    }) + match features {
        Some(f) => seq![FEATURES_FLAG@, f],
        None => Seq::empty(),
    }
}

/// The features string, seen as characters.
pub open spec fn features_view(features: &Option<String>) -> Option<Seq<char>> {
    match features {
        Some(f) => Some(f@),
        None => None,
    }
}

/// The arguments to cargo that build `pkg`: `build -p <pkg>`, then `--release`
/// when asked, then `--features <features>` when given.
pub fn build_arguments(pkg: &str, release: bool, features: &Option<String>) -> (r: Vec<String>)
    ensures
        r.deep_view() == build_args(pkg@, release, features_view(features)),
{
    let mut r: Vec<String> = Vec::new();
    r.push(String::from_str(BUILD));
    r.push(String::from_str(PACKAGE_FLAG));
    r.push(String::from_str(pkg));
    if release {
        r.push(String::from_str(RELEASE_FLAG));
    }
    match features {
        Some(f) => {
            r.push(String::from_str(FEATURES_FLAG));
            r.push(f.clone());
        },
        None => {},
    }
    assert(r.deep_view() =~= build_args(pkg@, release, features_view(features)));
    r
}

/// The arguments of each cargo run that builds `packages`, one run per package, in order.
pub fn build_invocations(packages: &Vec<String>, release: bool, features: &Option<String>) -> (r:
    Vec<Vec<String>>)
    ensures
        r.len() == packages.len(),
        forall|i: int|
            0 <= i < packages.len() ==> #[trigger] r[i].deep_view() == build_args(
                packages[i]@,
                release,
                features_view(features),
            ),
{
    let mut r: Vec<Vec<String>> = Vec::new();
    let mut i: usize = 0;
    while i < packages.len()
        invariant
            i <= packages.len(),
            r.len() == i,
            forall|k: int|
                0 <= k < i ==> #[trigger] r[k].deep_view() == build_args(
                    packages[k]@,
                    release,
                    features_view(features),
                ),
        decreases packages.len() - i,
    {
        r.push(build_arguments(packages[i].as_str(), release, features));
        i += 1;
    }
    r
}

/// The exit code that one build's end calls for: its own code, or 1 when a
/// signal ended it (`None`).
pub open spec fn code_of(status: Option<i32>) -> i32 {
    match status {
        Some(c) => c,
        None => 1,
    }
}

/// What to do after one build has ended.
#[derive(Clone, Copy, Debug, PartialEq, Eq, Structural)]
pub enum BuildStep {
    /// The build succeeded: go on with the next one.
    Continue,
    /// The build failed: run no more builds and leave with this exit code.
    Stop(i32),
}

/// What to do after a build that ended with `status` (its exit code, or `None`
/// when a signal ended it): go on after a success, stop after anything else.
pub fn after_build(status: Option<i32>) -> (r: BuildStep)
    ensures
        status == Some(0i32) ==> r == BuildStep::Continue,
        status != Some(0i32) ==> r == BuildStep::Stop(code_of(status)),
{
    match status {
        Some(0) => BuildStep::Continue,
        Some(c) => BuildStep::Stop(c),
        None => BuildStep::Stop(1),
    }
}

/// The exit code of a run whose builds ended as `statuses`, in order: that of
/// the first failed build, or 0 when every build succeeded.
pub open spec fn exit_code_of(statuses: Seq<Option<i32>>) -> i32
    decreases statuses.len(),
{
    if statuses.len() == 0 {
        0
    } else if statuses[0] == Some(0i32) {
        exit_code_of(statuses.drop_first())
    } else {
        code_of(statuses[0])
    }
}

/// The exit code of a run whose builds ended as `statuses`: see `exit_code_of`.
pub fn final_exit_code(statuses: &Vec<Option<i32>>) -> (r: i32)
    ensures
        r == exit_code_of(statuses@),
{
    let mut i: usize = 0;
    assert(statuses@.skip(0) =~= statuses@);
    while i < statuses.len()
        invariant
            i <= statuses.len(),
            exit_code_of(statuses@.skip(i as int)) == exit_code_of(statuses@),
        decreases statuses.len() - i,
    {
        let ghost rest = statuses@.skip(i as int);
        assert(rest[0] == statuses@[i as int]);
        assert(rest.drop_first() =~= statuses@.skip(i + 1));
        match after_build(statuses[i]) {
            BuildStep::Stop(c) => return c,
            BuildStep::Continue => {},
        }
        i += 1;
    }
    assert(statuses@.skip(i as int).len() == 0);
    0
}

} // verus!

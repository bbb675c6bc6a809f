use vstd::prelude::*;

use crate::package::{
    id_name, id_parts, is_local, is_local_source, local_dir, local_directory, name_version,
    package_name, package_spec, split_package_id,
};

verus! {

/// Why no build plan could be made from a list of package ids.
#[derive(Clone, Copy, Debug, PartialEq, Eq, Structural)]
pub enum PlanError {
    /// No package id has the target's name.
    MissingTarget,
    /// The target's id has no source part to take its directory from.
    MissingPath,
    /// Some package id holds fewer than two spaces.
    MalformedId,
}

/// Which dependencies to leave out, and which to add.
pub struct Selection {
    /// Leave out the packages that live in local directories.
    pub ignore_local_packages: bool,
    /// Names of packages to leave out.
    pub ignore_pkgs: Vec<String>,
    /// `name:version` specs of packages to leave out.
    pub ignore_pkg_vers: Vec<String>,
    /// Package specs to build after the selected dependencies, as given.
    pub with_pkgs: Vec<String>,
}

/// The directory to build in and the package specs to build there, in order.
pub struct BuildPlan {
    pub directory: String,
    pub packages: Vec<String>,
}

/// Position of the first id at or after `from` whose name is `target`, or `ids.len()`.
pub open spec fn first_named(ids: Seq<Seq<char>>, target: Seq<char>, from: int) -> int
    decreases ids.len() - from,
{
    if from < 0 || from >= ids.len() {
        ids.len() as int
    } else if id_name(ids[from]) == target {
        from
    } else {
        first_named(ids, target, from + 1)
    }
}

/// The directory of the target package: that of the first id with its name.
pub open spec fn target_dir(ids: Seq<Seq<char>>, target: Seq<char>) -> Result<Seq<char>, PlanError> {
    let i = first_named(ids, target, 0);
    if i >= ids.len() {
        Err(PlanError::MissingTarget)
    } else {
        match id_parts(ids[i]) {
            Some((_, _, source)) => Ok(local_dir(source)),
            None => Err(PlanError::MissingPath),
        }
    }
}

/// Whether every id can be cut into name, version and source.
pub open spec fn all_well_formed(ids: Seq<Seq<char>>) -> bool {
    forall|i: int| 0 <= i < ids.len() ==> (#[trigger] id_parts(ids[i])) is Some
}

/// Whether a package with these id parts is kept as a dependency of `target`.
pub open spec fn keeps(
    name: Seq<char>,
    version: Seq<char>,
    source: Seq<char>,
    target: Seq<char>,
    sel: Selection,
) -> bool {
    &&& name != target
    &&& !(sel.ignore_local_packages && is_local(source))
    &&& !sel.ignore_pkgs.deep_view().contains(name)
    &&& !sel.ignore_pkg_vers.deep_view().contains(name_version(name, version))
}

/// The `name:version` spec of the package with this id, when it can be cut into
/// parts and is kept as a dependency of `target`.
pub open spec fn kept_spec(id: Seq<char>, target: Seq<char>, sel: Selection) -> Option<Seq<char>> {
    match id_parts(id) {
        Some((name, version, source)) => if keeps(name, version, source, target, sel) {
            Some(name_version(name, version))
        } else {
            None
        },
        None => None,
    }
}

/// The `name:version` specs of the kept packages, in the order of their ids.
pub open spec fn dependency_specs(ids: Seq<Seq<char>>, target: Seq<char>, sel: Selection) -> Seq<
    Seq<char>,
>
    decreases ids.len(),
{
    if ids.len() == 0 {
        Seq::empty()
    } else {
        let earlier = dependency_specs(ids.drop_last(), target, sel);
        match kept_spec(ids.last(), target, sel) {
            Some(spec) => earlier.push(spec),
            None => earlier,
        }
    }
}

/// Every selected spec is the `name:version` of some id that the selection keeps:
/// so it is never the target, nor a local package when those are left out, nor
/// a name or `name:version` that the selection ignores.
pub proof fn lemma_selected_are_kept(ids: Seq<Seq<char>>, target: Seq<char>, sel: Selection, k: int)
    requires
        0 <= k < dependency_specs(ids, target, sel).len(),
    ensures
        exists|i: int|
            0 <= i < ids.len() && #[trigger] kept_spec(ids[i], target, sel) == Some(
                dependency_specs(ids, target, sel)[k],
            ),
    decreases ids.len(),
{
    let earlier = dependency_specs(ids.drop_last(), target, sel);
    if k < earlier.len() {
        lemma_selected_are_kept(ids.drop_last(), target, sel, k);
        let i = choose|i: int|
            0 <= i < ids.drop_last().len() && #[trigger] kept_spec(ids.drop_last()[i], target, sel)
                == Some(earlier[k]);
        assert(ids.drop_last()[i] == ids[i]);
        assert(kept_spec(ids[i], target, sel) == Some(dependency_specs(ids, target, sel)[k]));
    } else {
        let i = ids.len() - 1;
        assert(kept_spec(ids[i], target, sel) == Some(dependency_specs(ids, target, sel)[k]));
    }
}

/// Whether `list` holds `s`.
pub fn contains_text(list: &Vec<String>, s: &String) -> (r: bool)
    ensures
        r == list.deep_view().contains(s@),
{
    let mut i: usize = 0;
    while i < list.len()
        invariant
            i <= list.len(),
            forall|k: int| 0 <= k < i ==> list.deep_view()[k] != s@,
        decreases list.len() - i,
    {
        if list[i] == *s {
            assert(list.deep_view()[i as int] == s@);
            return true;
        }
        i += 1;
    }
    false
}

/// The directory of the target package: the source part of the first id named
/// `target`, without its leading `(path+file://` and trailing `)`.
pub fn target_directory(ids: &Vec<String>, target: &str) -> (r: Result<String, PlanError>)
    ensures
        match target_dir(ids.deep_view(), target@) {
            Ok(d) => r matches Ok(s) && s@ == d,
            Err(e) => r == Err::<String, PlanError>(e),
        },
{
    let ghost v = ids.deep_view();
    let target_name = String::from_str(target);
    let mut i: usize = 0;
    while i < ids.len()
        invariant
            i <= ids.len(),
            v == ids.deep_view(),
            target_name@ == target@,
            first_named(v, target@, i as int) == first_named(v, target@, 0),
        decreases ids.len() - i,
    {
        let name = package_name(ids[i].as_str());
        if name == target_name {
            return match split_package_id(ids[i].as_str()) {
                Some(p) => Ok(local_directory(p.source.as_str())),
                None => Err(PlanError::MissingPath),
            };
        }
        i += 1;
    }
    Err(PlanError::MissingTarget)
}

/// The `name:version` specs of the dependencies of `target` that `sel` keeps,
/// in the order of their ids. Fails when some id cannot be cut into three parts.
pub fn dependency_packages(ids: &Vec<String>, target: &str, sel: &Selection) -> (r: Result<
    Vec<String>,
    PlanError,
>)
    ensures
        all_well_formed(ids.deep_view()) ==> (r matches Ok(v) && v.deep_view()
            == dependency_specs(ids.deep_view(), target@, *sel)),
        !all_well_formed(ids.deep_view()) ==> r == Err::<Vec<String>, PlanError>(
            PlanError::MalformedId,
        ),
{
    let ghost v = ids.deep_view();
    let target_name = String::from_str(target);
    let mut out: Vec<String> = Vec::new();
    let mut i: usize = 0;
    assert(v.take(0) =~= Seq::<Seq<char>>::empty());
    while i < ids.len()
        invariant
            i <= ids.len(),
            v == ids.deep_view(),
            target_name@ == target@,
            all_well_formed(v.take(i as int)),
            out.deep_view() == dependency_specs(v.take(i as int), target@, *sel),
        decreases ids.len() - i,
    {
        let ghost before = v.take(i as int);
        let ghost now = v.take(i + 1);
        assert(now.drop_last() =~= before);
        assert(now.last() == v[i as int]);
        match split_package_id(ids[i].as_str()) {
            None => {
                assert(id_parts(v[i as int]) is None);
                return Err(PlanError::MalformedId);
            },
            Some(p) => {
                let spec = package_spec(p.name.as_str(), p.version.as_str());
                let keep = p.name != target_name && !(sel.ignore_local_packages
                    && is_local_source(p.source.as_str())) && !contains_text(&sel.ignore_pkgs, &p.name)
                    && !contains_text(&sel.ignore_pkg_vers, &spec);
                if keep {
                    out.push(spec);
                }
                proof {
                    assert forall|k: int| 0 <= k < now.len() implies (#[trigger] id_parts(now[k])) is Some by {
                        if k < i {
                            assert(now[k] == before[k]);
                        }
                    }
                    assert(out.deep_view() =~= dependency_specs(now, target@, *sel));
                }
            },
        }
        i += 1;
    }
    assert(v.take(i as int) =~= v);
    Ok(out)
}

/// Where and what to build for the target package: its directory, then the
/// specs of the dependencies that `sel` keeps, followed by `sel.with_pkgs`.
pub fn plan_builds(ids: &Vec<String>, target: &str, sel: &Selection) -> (r: Result<
    BuildPlan,
    PlanError,
>)
    ensures
        match target_dir(ids.deep_view(), target@) {
            Err(e) => r matches Err(f) && f == e,
            Ok(d) => if all_well_formed(ids.deep_view()) {
                r matches Ok(p) && p.directory@ == d && p.packages.deep_view() == dependency_specs(
                    ids.deep_view(),
                    target@,
                    *sel,
                ) + sel.with_pkgs.deep_view()
            } else {
                r matches Err(f) && f == PlanError::MalformedId
            },
        },
{
    let directory = match target_directory(ids, target) {
        Ok(d) => d,
        Err(e) => return Err(e),
    };
    let mut packages = match dependency_packages(ids, target, sel) {
        Ok(v) => v,
        Err(e) => return Err(e),
    };
    let ghost selected = packages.deep_view();
    let mut k: usize = 0;
    while k < sel.with_pkgs.len()
        invariant
            k <= sel.with_pkgs.len(),
            packages.deep_view() == selected + sel.with_pkgs.deep_view().take(k as int),
        decreases sel.with_pkgs.len() - k,
    {
        let ghost earlier = packages.deep_view();
        let extra = sel.with_pkgs[k].clone();
        assert(extra@ == sel.with_pkgs.deep_view()[k as int]);
        packages.push(extra);
        assert(packages.deep_view() =~= earlier.push(extra@));
        k += 1;
        assert(packages.deep_view() =~= selected + sel.with_pkgs.deep_view().take(k as int));
    }
    assert(sel.with_pkgs.deep_view().take(k as int) =~= sel.with_pkgs.deep_view());
    Ok(BuildPlan { directory, packages })
}

} // verus!

//! Deployment planning: what a deployment does to the game's mod directory.
//!
//! A plan is a list of steps — clear the directory, recreate it, copy each
//! enabled mod's payload file — that the driver carries out in order. The
//! planner aborts on the first failing descriptor, so a plan either covers
//! every enabled mod or is no plan at all.

use vstd::prelude::*;
use crate::errors::DeployErrorV;
use crate::mod_types::ModTypeV;
use crate::modification::first_pak_spec;
use crate::paths::base_name_spec;

verus! {

/// One step of a deployment plan.
#[derive(Debug, PartialEq, Eq)]
pub enum DeployOp {
    /// Recursively delete the game's mod directory (its absence is fine).
    ClearModDir,
    /// Recreate the game's mod directory, empty.
    CreateModDir,
    /// Copy `source` to `dest_name` directly under the game's mod directory.
    Copy { source: String, dest_name: String },
}

/// `DeployOp`, over characters.
pub enum DeployOpV {
    ClearModDir,
    CreateModDir,
    Copy { source: Seq<char>, dest_name: Seq<char> },
}

impl View for DeployOp {
    type V = DeployOpV;

    open spec fn view(&self) -> DeployOpV {
        match *self {
            DeployOp::ClearModDir => DeployOpV::ClearModDir,
            DeployOp::CreateModDir => DeployOpV::CreateModDir,
            DeployOp::Copy { source, dest_name } => DeployOpV::Copy {
                source: source@,
                dest_name: dest_name@,
            },
        }
    }
}

/// The characters of each step in `s`.
pub open spec fn op_views(s: Seq<DeployOp>) -> Seq<DeployOpV> {
    s.map_values(|op: DeployOp| op@)
}

/// Every enabled multi-pak mod's selected index is in bounds: the
/// precondition of deployment. Parsing establishes it for every manifest
/// with at least one entry.
pub open spec fn deploy_wf(mods: Seq<ModTypeV>) -> bool {
    forall|i: int|
        0 <= i < mods.len() ==> match #[trigger] mods[i] {
            ModTypeV::MultiPak(mp) => mp.enabled ==> 0 <= mp.selected_pak < mp.paks.len(),
            _ => true,
        }
}

/// The copies one descriptor contributes: nothing when disabled; a loose
/// pak's own file; a complete mod's lazily located asset file (fatal when
/// none exists, `files` being every file under its directory); a multi-pak
/// mod's selected entry only. The copied file keeps only its base name.
pub open spec fn mod_ops_spec(m: ModTypeV, files: Seq<Seq<char>>) -> Result<
    Seq<DeployOpV>,
    DeployErrorV,
> {
    match m {
        ModTypeV::LoosePak(p) => if p.enabled {
            Result::Ok(
                seq![
                    DeployOpV::Copy { source: p.path, dest_name: base_name_spec(p.path) },
                ],
            )
        } else {
            Result::Ok(Seq::empty())
        },
        ModTypeV::Complete(c) => if c.enabled {
            match first_pak_spec(files) {
                Option::Some(pk) => Result::Ok(
                    seq![DeployOpV::Copy { source: pk, dest_name: base_name_spec(pk) }],
                ),
                Option::None => Result::Err(DeployErrorV::NoAssetFound { path: c.file_path }),
            }
        } else {
            Result::Ok(Seq::empty())
        },
        ModTypeV::MultiPak(mp) => if mp.enabled {
            Result::Ok(
                seq![
                    DeployOpV::Copy {
                        source: mp.paks[mp.selected_pak].path,
                        dest_name: mp.paks[mp.selected_pak].pak,
                    },
                ],
            )
        } else {
            Result::Ok(Seq::empty())
        },
    }
}

/// The copies the whole catalog contributes, in order (`listings[i]` lists
/// the files under `mods[i]`'s directory). The first failing descriptor
/// aborts the plan.
pub open spec fn copies_spec(mods: Seq<ModTypeV>, listings: Seq<Seq<Seq<char>>>) -> Result<
    Seq<DeployOpV>,
    DeployErrorV,
>
    decreases mods.len(),
{
    if mods.len() == 0 {
        Result::Ok(Seq::empty())
    } else {
        match copies_spec(mods.drop_last(), listings.drop_last()) {
            Result::Err(e) => Result::Err(e),
            Result::Ok(pre) => match mod_ops_spec(mods.last(), listings.last()) {
                Result::Err(e) => Result::Err(e),
                Result::Ok(ops) => Result::Ok(pre + ops),
            },
        }
    }
}

/// The full plan: clear the mod directory, recreate it, then every enabled
/// descriptor's copy.
pub open spec fn deploy_plan_spec(mods: Seq<ModTypeV>, listings: Seq<Seq<Seq<char>>>) -> Result<
    Seq<DeployOpV>,
    DeployErrorV,
> {
    match copies_spec(mods, listings) {
        Result::Ok(ops) => Result::Ok(
            seq![DeployOpV::ClearModDir, DeployOpV::CreateModDir] + ops,
        ),
        Result::Err(e) => Result::Err(e),
    }
}

/// The name of the marker subdirectory that identifies the game directory.
pub open spec fn marker_name() -> Seq<char> {
    "MarvelGame"@
}

/// The game directory's listing shows the expected marker subdirectory
/// (`None`: the directory could not be listed at all).
pub open spec fn valid_game_dir_spec(children: Option<Seq<Seq<char>>>) -> bool {
    match children {
        Option::Some(cs) => exists|i: int| 0 <= i < cs.len() && (#[trigger] cs[i]) == marker_name(),
        Option::None => false,
    }
}

/// A failing prefix decides the whole plan: the first error wins.
pub proof fn lemma_copies_err_prefix(mods: Seq<ModTypeV>, listings: Seq<Seq<Seq<char>>>, j: int)
    requires
        mods.len() == listings.len(),
        0 <= j <= mods.len(),
        copies_spec(mods.take(j), listings.take(j)) is Err,
    ensures
        copies_spec(mods, listings) == copies_spec(mods.take(j), listings.take(j)),
    decreases mods.len(),
{
    if j < mods.len() {
        assert(mods.drop_last().take(j) =~= mods.take(j));
        assert(listings.drop_last().take(j) =~= listings.take(j));
        lemma_copies_err_prefix(mods.drop_last(), listings.drop_last(), j);
    } else {
        assert(mods.take(j) =~= mods);
        assert(listings.take(j) =~= listings);
    }
}

/// What one plan step does to the set of file names in the mod directory.
pub open spec fn apply_step(contents: Set<Seq<char>>, op: DeployOpV) -> Set<Seq<char>> {
    match op {
        DeployOpV::ClearModDir => Set::empty(),
        DeployOpV::CreateModDir => contents,
        DeployOpV::Copy { source, dest_name } => contents.insert(dest_name),
    }
}

/// The file names in the mod directory after carrying out `ops`, in order,
/// over a directory that held `contents`.
pub open spec fn apply_ops(contents: Set<Seq<char>>, ops: Seq<DeployOpV>) -> Set<Seq<char>>
    decreases ops.len(),
{
    if ops.len() == 0 {
        contents
    } else {
        apply_ops(apply_step(contents, ops.first()), ops.drop_first())
    }
}

/// The names a plan's copies write.
pub open spec fn copy_dest_names(ops: Seq<DeployOpV>) -> Set<Seq<char>>
    decreases ops.len(),
{
    if ops.len() == 0 {
        Set::empty()
    } else {
        match ops.first() {
            DeployOpV::Copy { source, dest_name } => copy_dest_names(ops.drop_first()).insert(
                dest_name,
            ),
            _ => copy_dest_names(ops.drop_first()),
        }
    }
}

/// Every step in `ops` is a copy.
pub open spec fn all_copies(ops: Seq<DeployOpV>) -> bool {
    forall|i: int| 0 <= i < ops.len() ==> (#[trigger] ops[i]) is Copy
}

proof fn lemma_apply_copies(contents: Set<Seq<char>>, ops: Seq<DeployOpV>)
    requires
        all_copies(ops),
    ensures
        apply_ops(contents, ops) == contents.union(copy_dest_names(ops)),
    decreases ops.len(),
{
    if ops.len() == 0 {
        assert(contents.union(copy_dest_names(ops)) =~= contents);
    } else {
        assert(ops[0] is Copy);
        assert(all_copies(ops.drop_first()));
        lemma_apply_copies(apply_step(contents, ops.first()), ops.drop_first());
        assert(apply_step(contents, ops.first()).union(copy_dest_names(ops.drop_first()))
            =~= contents.union(copy_dest_names(ops)));
    }
}

proof fn lemma_copies_all_copies(mods: Seq<ModTypeV>, listings: Seq<Seq<Seq<char>>>)
    requires
        copies_spec(mods, listings) is Ok,
    ensures
        all_copies(copies_spec(mods, listings)->Ok_0),
    decreases mods.len(),
{
    if mods.len() > 0 {
        lemma_copies_all_copies(mods.drop_last(), listings.drop_last());
        let pre = copies_spec(mods.drop_last(), listings.drop_last())->Ok_0;
        let ops = mod_ops_spec(mods.last(), listings.last())->Ok_0;
        assert forall|i: int| 0 <= i < pre.len() + ops.len() implies (#[trigger] (pre + ops)[i])
            is Copy by {
            if i < pre.len() {
                assert((pre + ops)[i] == pre[i]);
            } else {
                assert((pre + ops)[i] == ops[i - pre.len()]);
                assert(ops.len() <= 1);
            }
        }
    }
}

/// Deployment replaces the destination: after a successful plan is carried
/// out, the mod directory holds exactly the planned copies' names — whatever
/// it held before. Anything stale is gone.
pub proof fn lemma_deploy_replaces_destination(
    mods: Seq<ModTypeV>,
    listings: Seq<Seq<Seq<char>>>,
    initial: Set<Seq<char>>,
)
    requires
        deploy_plan_spec(mods, listings) is Ok,
    ensures
        apply_ops(initial, deploy_plan_spec(mods, listings)->Ok_0) == copy_dest_names(
            copies_spec(mods, listings)->Ok_0,
        ),
{
    let copies = copies_spec(mods, listings)->Ok_0;
    let plan = deploy_plan_spec(mods, listings)->Ok_0;
    assert(plan.len() == copies.len() + 2);
    assert(plan.drop_first().drop_first() =~= copies);
    assert(plan.first() == DeployOpV::ClearModDir);
    assert(plan.drop_first().first() == DeployOpV::CreateModDir);
    assert(apply_step(initial, plan.first()) =~= Set::empty());
    assert(apply_ops(initial, plan) == apply_ops(Set::empty(), plan.drop_first()));
    assert(apply_step(Set::empty(), DeployOpV::CreateModDir) =~= Set::<Seq<char>>::empty());
    assert(apply_ops(Set::empty(), plan.drop_first()) == apply_ops(Set::empty(), copies));
    lemma_copies_all_copies(mods, listings);
    lemma_apply_copies(Set::empty(), copies);
    assert(Set::empty().union(copy_dest_names(copies)) =~= copy_dest_names(copies));
}

/// An enabled multi-pak mod contributes exactly one copy: its selected
/// entry's asset file, whatever other entries exist.
pub proof fn lemma_multipak_deploys_selected_only(
    mp: crate::multi_pak::MultiPakV,
    files: Seq<Seq<char>>,
)
    requires
        mp.enabled,
    ensures
        mod_ops_spec(ModTypeV::MultiPak(mp), files) == Result::Ok::<Seq<DeployOpV>, DeployErrorV>(
            seq![
                DeployOpV::Copy {
                    source: mp.paks[mp.selected_pak].path,
                    dest_name: mp.paks[mp.selected_pak].pak,
                },
            ],
        ),
{
}

} // verus!

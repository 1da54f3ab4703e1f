//! The mod manager: the catalog of discovered mods, and the planners for
//! archive expansion, catalog refresh and deployment.
//!
//! The manager never touches the filesystem. The driver hands it snapshots —
//! directory listings, manifest texts, archive bytes — and carries out the
//! action lists it returns.

use vstd::prelude::*;
use crate::archive::{
    action_views, all_entries_decode, decoded_entries, first_undecodable, read_zip_entries,
    zip_entries_of, zip_plan, zip_plan_spec, ExpandAction, ExpandActionV, ZipReadError,
};
use crate::deploy::{
    copies_spec, deploy_plan_spec, deploy_wf, lemma_copies_err_prefix, mod_ops_spec, op_views,
    valid_game_dir_spec, DeployOp, DeployOpV,
};
use crate::errors::{ArchiveError, ArchiveErrorV, CatalogError, DeployError};
use crate::mod_types::{
    classify_and_build, classify_spec, with_enabled, EntryInfo, EntryInfoV, ModType, ModTypeV,
};
use crate::multi_pak::MultiPakV;
use crate::paths::{
    base_name, base_name_spec, is_7z, is_7z_name, is_archive, is_archive_name, is_zip,
    is_zip_name, parent_dir, parent_spec, path_join, spec_join, str_eq, str_views,
};

verus! {

/// The characters of each descriptor in `s`.
pub open spec fn mods_views(s: Seq<ModType>) -> Seq<ModTypeV> {
    s.map_values(|m: ModType| m@)
}

/// The characters of each scanned entry in `s`.
pub open spec fn entry_infos_views(s: Seq<EntryInfo>) -> Seq<EntryInfoV> {
    s.map_values(|e: EntryInfo| e@)
}

/// The characters of each per-mod file listing in `s`.
pub open spec fn listing_views(s: Seq<Vec<String>>) -> Seq<Seq<Seq<char>>> {
    s.map_values(|v: Vec<String>| str_views(v@))
}

/// The characters of an optional directory listing.
pub open spec fn opt_str_views(o: Option<Vec<String>>) -> Option<Seq<Seq<char>>> {
    match o {
        Option::Some(v) => Option::Some(str_views(v@)),
        Option::None => Option::None,
    }
}

/// The catalog that classifying the entries, in listing order, yields:
/// entries that classify to a mod are kept; skips and per-entry failures are
/// dropped, never fatal.
pub open spec fn catalog_spec(entries: Seq<EntryInfoV>) -> Seq<ModTypeV>
    decreases entries.len(),
{
    if entries.len() == 0 {
        Seq::empty()
    } else {
        let pre = catalog_spec(entries.drop_last());
        match classify_spec(entries.last()) {
            Result::Ok(Option::Some(m)) => pre.push(m),
            _ => pre,
        }
    }
}

/// A freshly built catalog is fully disabled: the enabled flag is transient
/// session state, never read from disk, reset on every rebuild.
pub proof fn lemma_fresh_catalog_disabled(entries: Seq<EntryInfoV>)
    ensures
        forall|i: int|
            0 <= i < catalog_spec(entries).len() ==> !crate::mod_types::enabled_of(
                #[trigger] catalog_spec(entries)[i],
            ),
    decreases entries.len(),
{
    if entries.len() > 0 {
        lemma_fresh_catalog_disabled(entries.drop_last());
        match classify_spec(entries.last()) {
            Result::Ok(Option::Some(m)) => {
                assert(!crate::mod_types::enabled_of(m));
                assert(catalog_spec(entries) == catalog_spec(entries.drop_last()).push(m));
            },
            _ => {
                assert(catalog_spec(entries) == catalog_spec(entries.drop_last()));
            },
        }
    }
}

/// The archive files among the source directory's file children, in listing
/// order: those expanded in place before classification.
pub open spec fn archives_spec(files: Seq<Seq<char>>) -> Seq<Seq<char>>
    decreases files.len(),
{
    if files.len() == 0 {
        Seq::empty()
    } else {
        archives_spec(files.drop_last()) + (if is_archive_name(files.last()) {
            seq![files.last()]
        } else {
            Seq::empty()
        })
    }
}

/// The mod manager: the discovered catalog and the two directories it works
/// between.
#[derive(Debug)]
pub struct ModManager {
    pub(crate) modifications: Vec<ModType>,
    /// Where mod packages are stored and discovered.
    pub mod_directory: String,
    /// The game's installation directory.
    pub game_directory: String,
}

/// `ModManager`, over characters.
pub struct ModManagerV {
    pub modifications: Seq<ModTypeV>,
    pub mod_directory: Seq<char>,
    pub game_directory: Seq<char>,
}

impl View for ModManager {
    type V = ModManagerV;

    open(crate) spec fn view(&self) -> ModManagerV {
        ModManagerV {
            modifications: mods_views(self.modifications@),
            mod_directory: self.mod_directory@,
            game_directory: self.game_directory@,
        }
    }
}

/// Builds the catalog for a listing of the source directory's children.
fn build_catalog(entries: &Vec<EntryInfo>) -> (r: Vec<ModType>)
    ensures
        mods_views(r@) == catalog_spec(entry_infos_views(entries@)),
{
    let ghost ev = entry_infos_views(entries@);
    let n = entries.len();
    let mut out: Vec<ModType> = Vec::new();
    let mut i: usize = 0;
    while i < n
        invariant
            n == entries@.len(),
            ev == entry_infos_views(entries@),
            ev.len() == n,
            0 <= i <= n,
            mods_views(out@) == catalog_spec(ev.take(i as int)),
        decreases n - i,
    {
        proof {
            assert(ev.take(i + 1).drop_last() =~= ev.take(i as int));
            assert(ev.take(i + 1).last() == ev[i as int]);
        }
        match classify_and_build(&entries[i]) {
            Ok(Option::Some(m)) => {
                let ghost old_out = out@;
                let ghost mv = m@;
                out.push(m);
                proof {
                    assert(mods_views(out@) =~= mods_views(old_out).push(mv));
                }
            },
            Ok(Option::None) => {},
            Err(_) => {},
        }
        i += 1;
    }
    proof {
        assert(ev.take(n as int) =~= ev);
    }
    out
}

/// Plans the copy for each descriptor, in catalog order, aborting on the
/// first failure.
fn plan_copies(mods: &Vec<ModType>, asset_listings: &Vec<Vec<String>>) -> (r: Result<
    Vec<DeployOp>,
    DeployError,
>)
    requires
        mods@.len() == asset_listings@.len(),
        deploy_wf(mods_views(mods@)),
    ensures
        match r {
            Ok(ops) => copies_spec(mods_views(mods@), listing_views(asset_listings@)) == Ok::<
                Seq<DeployOpV>,
                crate::errors::DeployErrorV,
            >(op_views(ops@)),
            Err(e) => copies_spec(mods_views(mods@), listing_views(asset_listings@)) == Err::<
                Seq<DeployOpV>,
                crate::errors::DeployErrorV,
            >(e@),
        },
{
    let ghost mv = mods_views(mods@);
    let ghost lv = listing_views(asset_listings@);
    let n = mods.len();
    let mut out: Vec<DeployOp> = Vec::new();
    proof {
        assert(mv.take(0) =~= Seq::<ModTypeV>::empty());
        assert(lv.take(0) =~= Seq::<Seq<Seq<char>>>::empty());
        assert(op_views(out@) =~= Seq::<DeployOpV>::empty());
    }
    let mut i: usize = 0;
    while i < n
        invariant
            n == mods@.len(),
            n == asset_listings@.len(),
            mv == mods_views(mods@),
            lv == listing_views(asset_listings@),
            mv.len() == n,
            lv.len() == n,
            deploy_wf(mv),
            0 <= i <= n,
            copies_spec(mv.take(i as int), lv.take(i as int)) == Ok::<
                Seq<DeployOpV>,
                crate::errors::DeployErrorV,
            >(op_views(out@)),
        decreases n - i,
    {
        proof {
            assert(mv.take(i + 1).drop_last() =~= mv.take(i as int));
            assert(lv.take(i + 1).drop_last() =~= lv.take(i as int));
            assert(mv.take(i + 1).last() == mv[i as int]);
            assert(lv.take(i + 1).last() == lv[i as int]);
        }
        let ghost before = out@;
        match &mods[i] {
            ModType::LoosePak(p) => {
                if p.enabled {
                    let dest_name = base_name(p.path.as_str());
                    out.push(DeployOp::Copy { source: p.path.clone(), dest_name });
                }
            },
            ModType::Complete(c) => {
                if c.enabled {
                    match c.pak_path(&asset_listings[i]) {
                        Option::Some(pk) => {
                            let dest_name = base_name(pk.as_str());
                            out.push(DeployOp::Copy { source: pk, dest_name });
                        },
                        Option::None => {
                            let e = DeployError::NoAssetFound { path: c.file_path.clone() };
                            proof {
                                assert(copies_spec(mv.take(i + 1), lv.take(i + 1)) == Err::<
                                    Seq<DeployOpV>,
                                    crate::errors::DeployErrorV,
                                >(e@));
                                lemma_copies_err_prefix(mv, lv, i + 1);
                            }
                            return Err(e);
                        },
                    }
                }
            },
            ModType::MultiPak(mp) => {
                if mp.enabled {
                    proof {
                        assert(mv[i as int] == ModTypeV::MultiPak(mp@));
                    }
                    let pk = mp.selected_pak();
                    out.push(
                        DeployOp::Copy { source: pk.path.clone(), dest_name: pk.pak.clone() },
                    );
                }
            },
        }
        proof {
            assert(op_views(out@) =~= op_views(before) + mod_ops_spec(
                mv[i as int],
                lv[i as int],
            )->Ok_0);
        }
        i += 1;
    }
    proof {
        assert(mv.take(n as int) =~= mv);
        assert(lv.take(n as int) =~= lv);
    }
    Ok(out)
}

impl ModManager {
    /// An empty manager: no catalog, no directories chosen yet.
    pub fn new() -> (r: Self)
        ensures
            r@.modifications == Seq::<ModTypeV>::empty(),
            r@.mod_directory == Seq::<char>::empty(),
            r@.game_directory == Seq::<char>::empty(),
    {
        let r = ModManager {
            modifications: Vec::new(),
            mod_directory: String::new(),
            game_directory: String::new(),
        };
        proof {
            assert(r@.modifications =~= Seq::<ModTypeV>::empty());
        }
        r
    }

    /// The current catalog, in discovery order.
    pub fn modifications(&self) -> (r: &Vec<ModType>)
        ensures
            mods_views(r@) == self@.modifications,
    {
        &self.modifications
    }

    /// Sets the transient enabled flag of the descriptor at `index`.
    pub fn set_enabled(&mut self, index: usize, on: bool)
        requires
            index < old(self)@.modifications.len(),
        ensures
            final(self)@.mod_directory == old(self)@.mod_directory,
            final(self)@.game_directory == old(self)@.game_directory,
            final(self)@.modifications == old(self)@.modifications.update(
                index as int,
                with_enabled(old(self)@.modifications[index as int], on),
            ),
    {
        self.modifications[index].set_enabled(on);
        proof {
            assert(mods_views(self.modifications@) =~= mods_views(
                old(self).modifications@,
            ).update(index as int, with_enabled(old(self)@.modifications[index as int], on)));
        }
    }

    /// Selects which entry of the multi-pak mod at `index` deploys. Does
    /// nothing and answers `false` when the descriptor is not a multi-pak
    /// mod or the entry index is out of bounds.
    pub fn set_selected_pak(&mut self, index: usize, pak_index: usize) -> (r: bool)
        requires
            index < old(self)@.modifications.len(),
        ensures
            final(self)@.mod_directory == old(self)@.mod_directory,
            final(self)@.game_directory == old(self)@.game_directory,
            match old(self)@.modifications[index as int] {
                ModTypeV::MultiPak(mp) => if 0 <= pak_index < mp.paks.len() {
                    r && final(self)@.modifications == old(self)@.modifications.update(
                        index as int,
                        ModTypeV::MultiPak(MultiPakV { selected_pak: pak_index as int, ..mp }),
                    )
                } else {
                    !r && final(self)@.modifications == old(self)@.modifications
                },
                _ => !r && final(self)@.modifications == old(self)@.modifications,
            },
    {
        let r = match &mut self.modifications[index] {
            ModType::MultiPak(mp) => {
                if pak_index < mp.paks.len() {
                    mp.selected_pak = pak_index;
                    true
                } else {
                    false
                }
            },
            _ => false,
        };
        proof {
            if r {
                assert(mods_views(self.modifications@) =~= mods_views(
                    old(self).modifications@,
                ).update(
                    index as int,
                    ModTypeV::MultiPak(
                        MultiPakV {
                            selected_pak: pak_index as int,
                            ..old(self)@.modifications[index as int]->MultiPak_0
                        },
                    ),
                ));
            } else {
                assert(mods_views(self.modifications@) =~= mods_views(
                    old(self).modifications@,
                ));
            }
        }
        r
    }

    /// Whether every enabled multi-pak mod's selected entry is in bounds —
    /// what deployment requires.
    pub fn deploy_ready(&self) -> (r: bool)
        ensures
            r == deploy_wf(self@.modifications),
    {
        let ghost mv = mods_views(self.modifications@);
        let n = self.modifications.len();
        let mut i: usize = 0;
        while i < n
            invariant
                n == self.modifications@.len(),
                mv == mods_views(self.modifications@),
                mv.len() == n,
                0 <= i <= n,
                forall|k: int|
                    0 <= k < i ==> match #[trigger] mv[k] {
                        ModTypeV::MultiPak(mp) => mp.enabled ==> 0 <= mp.selected_pak
                            < mp.paks.len(),
                        _ => true,
                    },
            decreases n - i,
        {
            let ok = match &self.modifications[i] {
                ModType::MultiPak(mp) => !mp.enabled || mp.selected_pak < mp.paks.len(),
                _ => true,
            };
            if !ok {
                proof {
                    assert(!(match mv[i as int] {
                        ModTypeV::MultiPak(mp) => mp.enabled ==> 0 <= mp.selected_pak
                            < mp.paks.len(),
                        _ => true,
                    }));
                }
                return false;
            }
            i += 1;
        }
        true
    }

    /// Whether the chosen game directory looks like the game: its listing
    /// (`None` when it could not be listed) shows the marker subdirectory.
    pub fn validate_game_directory(&self, game_dir_children: &Option<Vec<String>>) -> (r: bool)
        ensures
            r == valid_game_dir_spec(opt_str_views(*game_dir_children)),
    {
        match game_dir_children {
            Option::None => false,
            Option::Some(cs) => {
                let ghost cv = str_views(cs@);
                let n = cs.len();
                let mut i: usize = 0;
                while i < n
                    invariant
                        n == cs@.len(),
                        cv == str_views(cs@),
                        cv.len() == n,
                        opt_str_views(*game_dir_children) == Option::Some(cv),
                        0 <= i <= n,
                        forall|k: int| 0 <= k < i ==> cv[k] != crate::deploy::marker_name(),
                    decreases n - i,
                {
                    if str_eq(cs[i].as_str(), "MarvelGame") {
                        proof {
                            let cso = opt_str_views(*game_dir_children)->Some_0;
                            assert(cso == cv);
                            assert(0 <= (i as int) < cso.len() && cso[i as int]
                                == crate::deploy::marker_name());
                        }
                        return true;
                    }
                    i += 1;
                }
                false
            },
        }
    }

    /// The game's asset-load directory for mods, under the game directory.
    pub fn game_mod_directory(&self) -> (r: String)
        ensures
            r@ == spec_join(self@.game_directory, "MarvelGame/Marvel/Content/Paks/~mods"@),
    {
        path_join(self.game_directory.as_str(), "MarvelGame/Marvel/Content/Paks/~mods")
    }

    /// Where a file handed to the manager should land: the stored-mods
    /// directory joined with the file's base name (`None` when the path has
    /// no base name to keep — invalid input).
    pub fn add_mod_destination(&self, file_path: &String) -> (r: Option<String>)
        ensures
            match r {
                Some(d) => base_name_spec(file_path@).len() > 0 && d@ == spec_join(
                    self@.mod_directory,
                    base_name_spec(file_path@),
                ),
                None => base_name_spec(file_path@).len() == 0,
            },
    {
        let base = base_name(file_path.as_str());
        if base.unicode_len() == 0 {
            None
        } else {
            Some(path_join(self.mod_directory.as_str(), base.as_str()))
        }
    }

    /// The archive files among the source directory's file children, in
    /// listing order: the driver expands each in place (see
    /// `extract_archive`) before the catalog is rebuilt.
    pub fn archives_to_expand(file_paths: &Vec<String>) -> (r: Vec<String>)
        ensures
            str_views(r@) == archives_spec(str_views(file_paths@)),
    {
        let ghost fv = str_views(file_paths@);
        let n = file_paths.len();
        let mut out: Vec<String> = Vec::new();
        let mut i: usize = 0;
        while i < n
            invariant
                n == file_paths@.len(),
                fv == str_views(file_paths@),
                fv.len() == n,
                0 <= i <= n,
                str_views(out@) == archives_spec(fv.take(i as int)),
            decreases n - i,
        {
            proof {
                assert(fv.take(i + 1).drop_last() =~= fv.take(i as int));
                assert(fv.take(i + 1).last() == fv[i as int]);
            }
            let ghost before = out@;
            if is_archive(file_paths[i].as_str()) {
                out.push(file_paths[i].clone());
            }
            proof {
                assert(str_views(out@) =~= archives_spec(fv.take(i + 1)));
            }
            i += 1;
        }
        proof {
            assert(fv.take(n as int) =~= fv);
        }
        out
    }

    /// Plans the in-place expansion of the archive at `file_path` into its
    /// own parent directory. `is_file` reports whether the path is an
    /// existing regular file; `data` holds the archive's bytes when it is a
    /// zip archive (a 7z archive is handed whole to the decompressor, so its
    /// bytes are not needed). Expansion never deletes the archive file.
    pub fn extract_archive(file_path: &String, is_file: bool, data: Option<Vec<u8>>) -> (r:
        Result<Vec<ExpandAction>, ArchiveError>)
        requires
            is_file && is_zip_name(file_path@) ==> data is Some,
        ensures
            !is_file ==> r == Err::<Vec<ExpandAction>, ArchiveError>(ArchiveError::InvalidInput),
            is_file && !is_zip_name(file_path@) && !is_7z_name(file_path@) ==> r == Err::<
                Vec<ExpandAction>,
                ArchiveError,
            >(ArchiveError::UnsupportedFormat),
            is_file && is_zip_name(file_path@) ==> match zip_entries_of(data->Some_0@) {
                Option::Some(entries) => if all_entries_decode(entries) {
                    (r matches Ok(ops) && action_views(ops@) == zip_plan_spec(
                        parent_spec(file_path@),
                        decoded_entries(entries),
                    ))
                } else {
                    (r matches Err(e) && e@ == (ArchiveErrorV::Extraction {
                        path: spec_join(
                            parent_spec(file_path@),
                            first_undecodable(entries).unwrap(),
                        ),
                    }))
                },
                Option::None => (r matches Err(e) && e@ == (ArchiveErrorV::Extraction {
                    path: file_path@,
                })),
            },
            is_file && !is_zip_name(file_path@) && is_7z_name(file_path@) ==> (r matches Ok(ops)
                && action_views(ops@) == seq![
                ExpandActionV::Decompress7z {
                    archive: file_path@,
                    dest: parent_spec(file_path@),
                },
            ]),
    {
        if !is_file {
            return Err(ArchiveError::InvalidInput);
        }
        if is_zip(file_path.as_str()) {
            let bytes = match data {
                Option::Some(b) => b,
                Option::None => {
                    proof {
                        assert(false);
                    }
                    return Err(ArchiveError::InvalidInput);
                },
            };
            let ghost bv = bytes@;
            let entries = match read_zip_entries(bytes) {
                Ok(v) => v,
                Err(ZipReadError::NotAnArchive) => {
                    return Err(ArchiveError::Extraction { path: file_path.clone() });
                },
                Err(ZipReadError::Entry { name }) => {
                    proof {
                        crate::archive::lemma_first_undecodable_not_all(
                            zip_entries_of(bv)->Some_0,
                        );
                    }
                    let parent = parent_dir(file_path.as_str());
                    return Err(
                        ArchiveError::Extraction {
                            path: path_join(parent.as_str(), name.as_str()),
                        },
                    );
                },
            };
            let parent = parent_dir(file_path.as_str());
            Ok(zip_plan(parent.as_str(), entries))
        } else if is_7z(file_path.as_str()) {
            let parent = parent_dir(file_path.as_str());
            let r = vec![
                ExpandAction::Decompress7z { archive: file_path.clone(), dest: parent },
            ];
            proof {
                assert(action_views(r@) =~= seq![
                    ExpandActionV::Decompress7z {
                        archive: file_path@,
                        dest: parent_spec(file_path@),
                    },
                ]);
            }
            Ok(r)
        } else {
            Err(ArchiveError::UnsupportedFormat)
        }
    }

    /// Replaces the catalog with what classifying the listed children of the
    /// source directory yields, every descriptor fresh and disabled.
    /// `None` — the directory could not be listed — empties the catalog and
    /// fails; per-entry failures only skip that entry.
    pub fn init_mods(&mut self, listing: &Option<Vec<EntryInfo>>) -> (r: Result<
        (),
        CatalogError,
    >)
        ensures
            final(self)@.mod_directory == old(self)@.mod_directory,
            final(self)@.game_directory == old(self)@.game_directory,
            match *listing {
                Option::Some(entries) => r is Ok && final(self)@.modifications == catalog_spec(
                    entry_infos_views(entries@),
                ),
                Option::None => r == Err::<(), CatalogError>(CatalogError::DirectoryUnavailable)
                    && final(self)@.modifications == Seq::<ModTypeV>::empty(),
            },
    {
        match listing {
            Option::Some(entries) => {
                self.modifications = build_catalog(entries);
                Ok(())
            },
            Option::None => {
                self.modifications = Vec::new();
                proof {
                    assert(mods_views(self.modifications@) =~= Seq::<ModTypeV>::empty());
                }
                Err(CatalogError::DirectoryUnavailable)
            },
        }
    }

    /// Plans a deployment: when the game directory shows the marker
    /// subdirectory, the plan clears and recreates the game's mod directory
    /// and copies every enabled descriptor's payload file into it;
    /// otherwise `InvalidDestination`, and nothing is to be carried out, so
    /// the destination stays as it is. `asset_listings[i]` lists every file
    /// under descriptor `i`'s directory (consulted only for complete mods).
    /// The first failing descriptor aborts the whole plan.
    pub fn load_mods(
        &self,
        game_dir_children: &Option<Vec<String>>,
        asset_listings: &Vec<Vec<String>>,
    ) -> (r: Result<Vec<DeployOp>, DeployError>)
        requires
            self@.modifications.len() == asset_listings@.len(),
            deploy_wf(self@.modifications),
        ensures
            ({
                let plan = deploy_plan_spec(
                    self@.modifications,
                    listing_views(asset_listings@),
                );
                if !valid_game_dir_spec(opt_str_views(*game_dir_children)) {
                    r == Err::<Vec<DeployOp>, DeployError>(DeployError::InvalidDestination)
                } else {
                    match r {
                        Ok(ops) => plan == Ok::<Seq<DeployOpV>, crate::errors::DeployErrorV>(
                            op_views(ops@),
                        ),
                        Err(e) => plan == Err::<Seq<DeployOpV>, crate::errors::DeployErrorV>(
                            e@,
                        ),
                    }
                }
            }),
    {
        if !self.validate_game_directory(game_dir_children) {
            return Err(DeployError::InvalidDestination);
        }
        let mut copies = match plan_copies(&self.modifications, asset_listings) {
            Ok(c) => c,
            Err(e) => {
                return Err(e);
            },
        };
        let ghost cv = op_views(copies@);
        let mut ops: Vec<DeployOp> = Vec::new();
        ops.push(DeployOp::ClearModDir);
        ops.push(DeployOp::CreateModDir);
        ops.append(&mut copies);
        proof {
            assert(op_views(ops@) =~= seq![DeployOpV::ClearModDir, DeployOpV::CreateModDir]
                + cv);
        }
        Ok(ops)
    }
}

} // verus!

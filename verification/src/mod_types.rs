//! Classification of a source-directory entry into one of the three mod
//! shapes.

use vstd::prelude::*;
use crate::errors::ParseError;
use crate::loose_pak::{LoosePak, LoosePakV};
use crate::modification::{build_complete_spec, Modification, ModificationV};
use crate::multi_pak::{build_multipak_spec, MultiPak, MultiPakV};
use crate::paths::{base_name_spec, is_pak, is_pak_name};

verus! {

/// One discovered mod, in one of the three shapes.
#[derive(Debug)]
pub enum ModType {
    Complete(Modification),
    LoosePak(LoosePak),
    MultiPak(MultiPak),
}

/// `ModType`, over characters.
pub enum ModTypeV {
    Complete(ModificationV),
    LoosePak(LoosePakV),
    MultiPak(MultiPakV),
}

impl View for ModType {
    type V = ModTypeV;

    open spec fn view(&self) -> ModTypeV {
        match *self {
            ModType::Complete(m) => ModTypeV::Complete(m@),
            ModType::LoosePak(p) => ModTypeV::LoosePak(p@),
            ModType::MultiPak(m) => ModTypeV::MultiPak(m@),
        }
    }
}

/// The transient enabled flag of a descriptor.
pub open spec fn enabled_of(m: ModTypeV) -> bool {
    match m {
        ModTypeV::Complete(c) => c.enabled,
        ModTypeV::LoosePak(p) => p.enabled,
        ModTypeV::MultiPak(mp) => mp.enabled,
    }
}

/// The same descriptor with its enabled flag set to `on`.
pub open spec fn with_enabled(m: ModTypeV, on: bool) -> ModTypeV {
    match m {
        ModTypeV::Complete(c) => ModTypeV::Complete(ModificationV { enabled: on, ..c }),
        ModTypeV::LoosePak(p) => ModTypeV::LoosePak(LoosePakV { enabled: on, ..p }),
        ModTypeV::MultiPak(mp) => ModTypeV::MultiPak(MultiPakV { enabled: on, ..mp }),
    }
}

impl ModType {
    /// Whether this descriptor is enabled for deployment.
    pub fn enabled(&self) -> (r: bool)
        ensures
            r == enabled_of(self@),
    {
        match self {
            ModType::Complete(c) => c.enabled,
            ModType::LoosePak(p) => p.enabled,
            ModType::MultiPak(mp) => mp.enabled,
        }
    }

    /// Sets the transient enabled flag.
    pub fn set_enabled(&mut self, on: bool)
        ensures
            final(self)@ == with_enabled(old(self)@, on),
    {
        match self {
            ModType::Complete(c) => c.enabled = on,
            ModType::LoosePak(p) => p.enabled = on,
            ModType::MultiPak(mp) => mp.enabled = on,
        }
    }
}

/// What the scan of one immediate child of the source directory observed.
/// The driver fills one in per child; classification reads nothing else.
#[derive(Debug)]
pub struct EntryInfo {
    /// The entry's path (the source directory joined with its name).
    pub path: String,
    pub kind: EntryKind,
}

/// The shape of one scanned entry.
#[derive(Debug)]
pub enum EntryKind {
    /// A regular file.
    File,
    /// A directory: whether it has a `paks` subdirectory, and the text of its
    /// `mod.json` (`None` when missing or unreadable).
    Dir { has_paks: bool, manifest: Option<String> },
}

/// `EntryKind`, over characters.
pub enum EntryKindV {
    File,
    Dir { has_paks: bool, manifest: Option<Seq<char>> },
}

/// `EntryInfo`, over characters.
pub struct EntryInfoV {
    pub path: Seq<char>,
    pub kind: EntryKindV,
}

impl View for EntryKind {
    type V = EntryKindV;

    open spec fn view(&self) -> EntryKindV {
        match *self {
            EntryKind::File => EntryKindV::File,
            EntryKind::Dir { has_paks, manifest } => EntryKindV::Dir {
                has_paks,
                manifest: match manifest {
                    Option::Some(t) => Option::Some(t@),
                    Option::None => Option::None,
                },
            },
        }
    }
}

impl View for EntryInfo {
    type V = EntryInfoV;

    open spec fn view(&self) -> EntryInfoV {
        EntryInfoV { path: self.path@, kind: self.kind@ }
    }
}

/// The decision procedure over one entry: an asset file becomes a loose pak;
/// a directory with a `paks` subfolder becomes a multi-pak mod; any other
/// directory becomes a complete mod; anything else is a skip (`Ok(None)`).
pub open spec fn classify_spec(e: EntryInfoV) -> Result<Option<ModTypeV>, ParseError> {
    match e.kind {
        EntryKindV::File => if is_pak_name(e.path) {
            Result::Ok(
                Option::Some(
                    ModTypeV::LoosePak(
                        LoosePakV {
                            name: base_name_spec(e.path),
                            path: e.path,
                            enabled: false,
                        },
                    ),
                ),
            )
        } else {
            Result::Ok(Option::None)
        },
        EntryKindV::Dir { has_paks, manifest } => if has_paks {
            match build_multipak_spec(e.path, manifest) {
                Result::Ok(m) => Result::Ok(Option::Some(ModTypeV::MultiPak(m))),
                Result::Err(err) => Result::Err(err),
            }
        } else {
            match build_complete_spec(e.path, manifest) {
                Result::Ok(m) => Result::Ok(Option::Some(ModTypeV::Complete(m))),
                Result::Err(err) => Result::Err(err),
            }
        },
    }
}

/// Classifies one scanned entry and builds its descriptor, if any.
pub fn classify_and_build(entry: &EntryInfo) -> (r: Result<Option<ModType>, ParseError>)
    ensures
        match r {
            Ok(Option::Some(m)) => classify_spec(entry@) == Ok::<Option<ModTypeV>, ParseError>(
                Some(m@),
            ),
            Ok(Option::None) => classify_spec(entry@) == Ok::<Option<ModTypeV>, ParseError>(
                None,
            ),
            Err(e) => classify_spec(entry@) == Err::<Option<ModTypeV>, ParseError>(e),
        },
{
    match &entry.kind {
        EntryKind::File => {
            if is_pak(entry.path.as_str()) {
                match LoosePak::build(entry.path.clone()) {
                    Ok(p) => Ok(Some(ModType::LoosePak(p))),
                    Err(_) => Ok(None),  // LoosePak::build never fails
                }
            } else {
                Ok(None)
            }
        },
        EntryKind::Dir { has_paks, manifest } => {
            if *has_paks {
                match MultiPak::build(entry.path.clone(), manifest) {
                    Ok(m) => Ok(Some(ModType::MultiPak(m))),
                    Err(e) => Err(e),
                }
            } else {
                match Modification::build(entry.path.clone(), manifest) {
                    Ok(m) => Ok(Some(ModType::Complete(m))),
                    Err(e) => Err(e),
                }
            }
        },
    }
}

} // verus!

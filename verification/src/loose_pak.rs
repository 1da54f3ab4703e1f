//! A bare compiled-asset file discovered directly in the source directory.

use vstd::prelude::*;
use crate::paths::{base_name, base_name_spec};

verus! {

/// A single `.pak` file lying loose in the source directory.
#[derive(Debug)]
pub struct LoosePak {
    pub(crate) name: String,
    pub(crate) path: String,
    pub(crate) enabled: bool,
}

/// `LoosePak`, over characters.
pub struct LoosePakV {
    pub name: Seq<char>,
    pub path: Seq<char>,
    pub enabled: bool,
}

impl View for LoosePak {
    type V = LoosePakV;

    open(crate) spec fn view(&self) -> LoosePakV {
        LoosePakV { name: self.name@, path: self.path@, enabled: self.enabled }
    }
}

impl LoosePak {
    fn new() -> (r: Self)
        ensures
            r@ == (LoosePakV { name: Seq::empty(), path: Seq::empty(), enabled: false }),
    {
        LoosePak { name: String::new(), path: String::new(), enabled: false }
    }

    /// Builds the descriptor for a loose asset file: its display name is the
    /// file's base name, and it starts disabled.
    pub fn build(path: String) -> (r: Result<Self, String>)
        ensures
            match r {
                Ok(p) => p@ == (LoosePakV {
                    name: base_name_spec(path@),
                    path: path@,
                    enabled: false,
                }),
                Err(_) => false,
            },
    {
        let mut pak = Self::new();
        pak.name = base_name(path.as_str());
        pak.path = path;
        pak.enabled = false;
        Ok(pak)
    }

    /// The path this descriptor was built from.
    pub fn path(&self) -> (r: &String)
        ensures
            r@ == self@.path,
    {
        &self.path
    }
}

} // verus!

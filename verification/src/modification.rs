//! A complete mod: a directory with a `mod.json` manifest and one
//! compiled-asset file somewhere beneath it.

use vstd::prelude::*;
use crate::errors::ParseError;
use crate::json::{json_doc_of, json_str_field, parse_json, JsonValue};
use crate::paths::{is_pak, is_pak_name, str_views};

verus! {

/// The descriptor of a complete mod. The compiled-asset file is not part of
/// the descriptor: it is located lazily at deployment time (see `pak_path`).
#[derive(Debug)]
pub struct Modification {
    pub name: String,
    pub description: String,
    pub author: String,
    pub version: String,
    pub file_path: String,
    pub enabled: bool,
}

/// `Modification`, over characters.
pub struct ModificationV {
    pub name: Seq<char>,
    pub description: Seq<char>,
    pub author: Seq<char>,
    pub version: Seq<char>,
    pub file_path: Seq<char>,
    pub enabled: bool,
}

impl View for Modification {
    type V = ModificationV;

    open spec fn view(&self) -> ModificationV {
        ModificationV {
            name: self.name@,
            description: self.description@,
            author: self.author@,
            version: self.version@,
            file_path: self.file_path@,
            enabled: self.enabled,
        }
    }
}

/// The document holds the four required string fields of a complete mod's
/// manifest (unknown fields are ignored).
pub open spec fn complete_manifest_ok(j: JsonValue) -> bool {
    &&& json_str_field(j, "name"@) is Some
    &&& json_str_field(j, "description"@) is Some
    &&& json_str_field(j, "author"@) is Some
    &&& json_str_field(j, "version"@) is Some
}

/// What building a complete mod from its directory path and manifest text
/// yields: the manifest's own values, and a disabled descriptor.
pub open spec fn build_complete_spec(file_path: Seq<char>, manifest: Option<Seq<char>>) -> Result<
    ModificationV,
    ParseError,
> {
    match manifest {
        Option::None => Result::Err(ParseError::ManifestReadError),
        Option::Some(text) => match json_doc_of(text) {
            Option::None => Result::Err(ParseError::ManifestParseError),
            Option::Some(j) => if complete_manifest_ok(j) {
                Result::Ok(
                    ModificationV {
                        name: json_str_field(j, "name"@).unwrap(),
                        description: json_str_field(j, "description"@).unwrap(),
                        author: json_str_field(j, "author"@).unwrap(),
                        version: json_str_field(j, "version"@).unwrap(),
                        file_path: file_path,
                        enabled: false,
                    },
                )
            } else {
                Result::Err(ParseError::ManifestParseError)
            },
        },
    }
}

/// The first file whose name ends in the compiled-asset extension, if any.
pub open spec fn first_pak_spec(files: Seq<Seq<char>>) -> Option<Seq<char>>
    decreases files.len(),
{
    if files.len() == 0 {
        None
    } else if is_pak_name(files.first()) {
        Some(files.first())
    } else {
        first_pak_spec(files.drop_first())
    }
}

proof fn lemma_first_pak_skip(files: Seq<Seq<char>>, i: int)
    requires
        0 <= i <= files.len(),
        forall|k: int| 0 <= k < i ==> !is_pak_name(files[k]),
    ensures
        first_pak_spec(files) == first_pak_spec(files.skip(i)),
    decreases i,
{
    if i > 0 {
        lemma_first_pak_skip(files.drop_first(), i - 1);
        assert(files.drop_first().skip(i - 1) =~= files.skip(i));
    } else {
        assert(files.skip(0) =~= files);
    }
}

impl Modification {
    /// An empty, disabled descriptor.
    pub fn new() -> (r: Self)
        ensures
            r@ == (ModificationV {
                name: Seq::empty(),
                description: Seq::empty(),
                author: Seq::empty(),
                version: Seq::empty(),
                file_path: Seq::empty(),
                enabled: false,
            }),
    {
        Modification {
            name: String::new(),
            description: String::new(),
            author: String::new(),
            version: String::new(),
            file_path: String::new(),
            enabled: false,
        }
    }

    /// Reads a descriptor out of manifest text alone, leaving the directory
    /// path empty.
    pub fn from_json(json: String) -> (r: Result<Self, ParseError>)
        ensures
            match r {
                Ok(m) => build_complete_spec(Seq::empty(), Some(json@)) == Ok::<
                    ModificationV,
                    ParseError,
                >(m@),
                Err(e) => build_complete_spec(Seq::empty(), Some(json@)) == Err::<
                    ModificationV,
                    ParseError,
                >(e),
            },
    {
        let j = match parse_json(json.as_str()) {
            Option::Some(j) => j,
            Option::None => {
                return Err(ParseError::ManifestParseError);
            },
        };
        let name = match j.get_str_field("name") {
            Option::Some(s) => s,
            Option::None => {
                return Err(ParseError::ManifestParseError);
            },
        };
        let description = match j.get_str_field("description") {
            Option::Some(s) => s,
            Option::None => {
                return Err(ParseError::ManifestParseError);
            },
        };
        let author = match j.get_str_field("author") {
            Option::Some(s) => s,
            Option::None => {
                return Err(ParseError::ManifestParseError);
            },
        };
        let version = match j.get_str_field("version") {
            Option::Some(s) => s,
            Option::None => {
                return Err(ParseError::ManifestParseError);
            },
        };
        Ok(
            Modification {
                name,
                description,
                author,
                version,
                file_path: String::new(),
                enabled: false,
            },
        )
    }

    /// Builds the descriptor for a mod directory from its manifest text
    /// (`None` when `mod.json` was missing or unreadable). On success every
    /// manifest field is carried over unchanged and the descriptor starts
    /// disabled.
    pub fn build(file_path: String, manifest: &Option<String>) -> (r: Result<Self, ParseError>)
        ensures
            ({
                let s = build_complete_spec(
                    file_path@,
                    match *manifest {
                        Option::Some(t) => Option::Some(t@),
                        Option::None => Option::None,
                    },
                );
                match r {
                    Ok(m) => s == Ok::<ModificationV, ParseError>(m@),
                    Err(e) => s == Err::<ModificationV, ParseError>(e),
                }
            }),
    {
        let text = match manifest {
            Option::Some(t) => t,
            Option::None => {
                return Err(ParseError::ManifestReadError);
            },
        };
        let mut modification = match Self::from_json(text.clone()) {
            Ok(m) => m,
            Err(e) => {
                return Err(e);
            },
        };
        modification.file_path = file_path;
        modification.enabled = false;
        Ok(modification)
    }

    /// Locates the compiled-asset file for deployment: the first among
    /// `files` (every file under this mod's directory, in listing order)
    /// whose name ends in the asset extension. `None` is the fatal
    /// no-asset-found condition.
    pub fn pak_path(&self, files: &Vec<String>) -> (r: Option<String>)
        ensures
            match r {
                Some(p) => first_pak_spec(str_views(files@)) == Some(p@),
                None => first_pak_spec(str_views(files@)) is None,
            },
    {
        let ghost fv = str_views(files@);
        let n = files.len();
        let mut i: usize = 0;
        while i < n
            invariant
                n == files@.len(),
                fv == str_views(files@),
                fv.len() == n,
                0 <= i <= n,
                forall|k: int| 0 <= k < i ==> !is_pak_name(fv[k]),
            decreases n - i,
        {
            if is_pak(files[i].as_str()) {
                proof {
                    lemma_first_pak_skip(fv, i as int);
                    assert(fv.skip(i as int)[0] == fv[i as int]);
                }
                return Some(files[i].clone());
            }
            i += 1;
        }
        proof {
            lemma_first_pak_skip(fv, n as int);
            assert(fv.skip(n as int) =~= Seq::<Seq<char>>::empty());
        }
        None
    }
}

} // verus!

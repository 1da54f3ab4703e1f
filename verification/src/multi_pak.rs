//! A multi-variant mod: a directory with a `paks` subfolder and a manifest
//! describing an ordered list of alternative asset files, of which exactly
//! one (the selected entry) is deployed.

use vstd::prelude::*;
use crate::errors::ParseError;
use crate::json::{json_doc_of, json_field, json_str_field, parse_json, JsonValue};
use crate::paths::{path_join, spec_join};

verus! {

/// One selectable variant of a multi-pak mod.
#[derive(Debug)]
pub struct Pak {
    pub name: String,
    pub description: String,
    pub images: Vec<String>,
    pub pak: String,
    pub path: String,
}

/// `Pak`, over characters.
pub struct PakV {
    pub name: Seq<char>,
    pub description: Seq<char>,
    pub images: Seq<Seq<char>>,
    pub pak: Seq<char>,
    pub path: Seq<char>,
}

impl View for Pak {
    type V = PakV;

    open spec fn view(&self) -> PakV {
        PakV {
            name: self.name@,
            description: self.description@,
            images: crate::paths::str_views(self.images@),
            pak: self.pak@,
            path: self.path@,
        }
    }
}

/// The descriptor of a multi-pak mod.
#[derive(Debug)]
pub struct MultiPak {
    pub author: String,
    pub description: String,
    pub version: String,
    pub name: String,
    pub paks: Vec<Pak>,
    pub enabled: bool,
    pub path: String,
    pub selected_pak: usize,
}

/// `MultiPak`, over characters.
pub struct MultiPakV {
    pub author: Seq<char>,
    pub description: Seq<char>,
    pub version: Seq<char>,
    pub name: Seq<char>,
    pub paks: Seq<PakV>,
    pub enabled: bool,
    pub path: Seq<char>,
    pub selected_pak: int,
}

/// The characters of each `Pak` in `s`.
pub open spec fn paks_views(s: Seq<Pak>) -> Seq<PakV> {
    s.map_values(|p: Pak| p@)
}

impl View for MultiPak {
    type V = MultiPakV;

    open spec fn view(&self) -> MultiPakV {
        MultiPakV {
            author: self.author@,
            description: self.description@,
            version: self.version@,
            name: self.name@,
            paks: paks_views(self.paks@),
            enabled: self.enabled,
            path: self.path@,
            selected_pak: self.selected_pak as int,
        }
    }
}

/// The characters of each element, when every element is a JSON string.
pub open spec fn strings_of(items: Seq<JsonValue>) -> Option<Seq<Seq<char>>>
    decreases items.len(),
{
    if items.len() == 0 {
        Option::Some(Seq::empty())
    } else {
        match strings_of(items.drop_last()) {
            Option::None => Option::None,
            Option::Some(pre) => match items.last() {
                JsonValue::Str { s } => Option::Some(pre.push(s@)),
                _ => Option::None,
            },
        }
    }
}

/// What one element of the manifest's `paks` list yields: its own name,
/// description and image list, plus the asset file name resolved against the
/// mod directory's `paks` subfolder.
pub open spec fn pak_entry_spec(dir: Seq<char>, j: JsonValue) -> Option<PakV> {
    if json_str_field(j, "name"@) is Some && json_str_field(j, "description"@) is Some
        && json_str_field(j, "pak"@) is Some {
        match json_field(j, "images"@) {
            Option::Some(JsonValue::Arr { items }) => match strings_of(items@) {
                Option::Some(imgs) => Option::Some(
                    PakV {
                        name: json_str_field(j, "name"@).unwrap(),
                        description: json_str_field(j, "description"@).unwrap(),
                        images: imgs,
                        pak: json_str_field(j, "pak"@).unwrap(),
                        path: spec_join(
                            spec_join(dir, "paks"@),
                            json_str_field(j, "pak"@).unwrap(),
                        ),
                    },
                ),
                Option::None => Option::None,
            },
            _ => Option::None,
        }
    } else {
        Option::None
    }
}

/// What the whole `paks` list yields, in order.
pub open spec fn pak_entries_spec(dir: Seq<char>, items: Seq<JsonValue>) -> Option<Seq<PakV>>
    decreases items.len(),
{
    if items.len() == 0 {
        Option::Some(Seq::empty())
    } else {
        match pak_entries_spec(dir, items.drop_last()) {
            Option::None => Option::None,
            Option::Some(pre) => match pak_entry_spec(dir, items.last()) {
                Option::Some(p) => Option::Some(pre.push(p)),
                Option::None => Option::None,
            },
        }
    }
}

/// What building a multi-pak mod from its directory path and manifest text
/// yields: the manifest's own values, every entry's path resolved under the
/// `paks` subfolder, the first entry selected, and a disabled descriptor.
pub open spec fn build_multipak_spec(path: Seq<char>, manifest: Option<Seq<char>>) -> Result<
    MultiPakV,
    ParseError,
> {
    match manifest {
        Option::None => Result::Err(ParseError::ManifestReadError),
        Option::Some(text) => match json_doc_of(text) {
            Option::None => Result::Err(ParseError::ManifestParseError),
            Option::Some(j) => if json_str_field(j, "author"@) is Some && json_str_field(
                j,
                "description"@,
            ) is Some && json_str_field(j, "version"@) is Some && json_str_field(j, "name"@)
                is Some {
                match json_field(j, "paks"@) {
                    Option::Some(JsonValue::Arr { items }) => match pak_entries_spec(
                        path,
                        items@,
                    ) {
                        Option::Some(paks) => Result::Ok(
                            MultiPakV {
                                author: json_str_field(j, "author"@).unwrap(),
                                description: json_str_field(j, "description"@).unwrap(),
                                version: json_str_field(j, "version"@).unwrap(),
                                name: json_str_field(j, "name"@).unwrap(),
                                paks: paks,
                                enabled: false,
                                path: path,
                                selected_pak: 0,
                            },
                        ),
                        Option::None => Result::Err(ParseError::ManifestParseError),
                    },
                    _ => Result::Err(ParseError::ManifestParseError),
                }
            } else {
                Result::Err(ParseError::ManifestParseError)
            },
        },
    }
}

proof fn lemma_strings_of_none_prefix(items: Seq<JsonValue>, i: int)
    requires
        0 <= i <= items.len(),
        strings_of(items.take(i)) is None,
    ensures
        strings_of(items) is None,
    decreases items.len(),
{
    if i < items.len() {
        assert(items.drop_last().take(i) =~= items.take(i));
        lemma_strings_of_none_prefix(items.drop_last(), i);
    } else {
        assert(items.take(i) =~= items);
    }
}

proof fn lemma_pak_entries_none_prefix(dir: Seq<char>, items: Seq<JsonValue>, i: int)
    requires
        0 <= i <= items.len(),
        pak_entries_spec(dir, items.take(i)) is None,
    ensures
        pak_entries_spec(dir, items) is None,
    decreases items.len(),
{
    if i < items.len() {
        assert(items.drop_last().take(i) =~= items.take(i));
        lemma_pak_entries_none_prefix(dir, items.drop_last(), i);
    } else {
        assert(items.take(i) =~= items);
    }
}

/// Collects the characters of every element, when every element is a JSON
/// string.
fn decode_strings(items: &Vec<JsonValue>) -> (r: Option<Vec<String>>)
    ensures
        match r {
            Some(v) => strings_of(items@) == Some(crate::paths::str_views(v@)),
            None => strings_of(items@) is None,
        },
{
    let n = items.len();
    let mut acc: Vec<String> = Vec::new();
    let mut i: usize = 0;
    while i < n
        invariant
            n == items@.len(),
            0 <= i <= n,
            strings_of(items@.take(i as int)) == Some(crate::paths::str_views(acc@)),
        decreases n - i,
    {
        proof {
            assert(items@.take(i + 1).drop_last() =~= items@.take(i as int));
            assert(items@.take(i + 1).last() == items@[i as int]);
        }
        match &items[i] {
            JsonValue::Str { s } => {
                let ghost old_acc = acc@;
                acc.push(s.clone());
                proof {
                    assert(crate::paths::str_views(acc@) =~= crate::paths::str_views(
                        old_acc,
                    ).push(s@));
                }
            },
            _ => {
                proof {
                    lemma_strings_of_none_prefix(items@, i + 1);
                }
                return None;
            },
        }
        i += 1;
    }
    proof {
        assert(items@.take(n as int) =~= items@);
    }
    Some(acc)
}

/// Decodes one element of the manifest's `paks` list, resolving the asset
/// file's path under `dir`'s `paks` subfolder.
fn decode_pak(dir: &str, j: &JsonValue) -> (r: Option<Pak>)
    ensures
        match r {
            Some(p) => pak_entry_spec(dir@, *j) == Some(p@),
            None => pak_entry_spec(dir@, *j) is None,
        },
{
    let name = match j.get_str_field("name") {
        Option::Some(s) => s,
        Option::None => {
            return None;
        },
    };
    let description = match j.get_str_field("description") {
        Option::Some(s) => s,
        Option::None => {
            return None;
        },
    };
    let pak = match j.get_str_field("pak") {
        Option::Some(s) => s,
        Option::None => {
            return None;
        },
    };
    let images = match j.get_field("images") {
        Option::Some(JsonValue::Arr { items }) => match decode_strings(items) {
            Option::Some(v) => v,
            Option::None => {
                return None;
            },
        },
        _ => {
            return None;
        },
    };
    let path = path_join(path_join(dir, "paks").as_str(), pak.as_str());
    Some(Pak { name, description, images, pak, path })
}

/// Decodes the whole `paks` list, in order.
fn decode_paks(dir: &str, items: &Vec<JsonValue>) -> (r: Option<Vec<Pak>>)
    ensures
        match r {
            Some(v) => pak_entries_spec(dir@, items@) == Some(paks_views(v@)),
            None => pak_entries_spec(dir@, items@) is None,
        },
{
    let n = items.len();
    let mut paks: Vec<Pak> = Vec::new();
    let mut i: usize = 0;
    while i < n
        invariant
            n == items@.len(),
            0 <= i <= n,
            pak_entries_spec(dir@, items@.take(i as int)) == Some(paks_views(paks@)),
        decreases n - i,
    {
        proof {
            assert(items@.take(i + 1).drop_last() =~= items@.take(i as int));
            assert(items@.take(i + 1).last() == items@[i as int]);
        }
        match decode_pak(dir, &items[i]) {
            Option::Some(p) => {
                let ghost old_paks = paks@;
                let ghost pv = p@;
                paks.push(p);
                proof {
                    assert(paks_views(paks@) =~= paks_views(old_paks).push(pv));
                }
            },
            Option::None => {
                proof {
                    lemma_pak_entries_none_prefix(dir@, items@, i + 1);
                }
                return None;
            },
        }
        i += 1;
    }
    proof {
        assert(items@.take(n as int) =~= items@);
    }
    Some(paks)
}

impl MultiPak {
    /// Builds the descriptor for a mod directory that has a `paks` subfolder,
    /// from its manifest text (`None` when `mod.json` was missing or
    /// unreadable). On success the descriptor carries the manifest's values
    /// with every entry's path resolved, starts disabled, and selects the
    /// first entry.
    pub fn build(path: String, manifest: &Option<String>) -> (r: Result<Self, ParseError>)
        ensures
            ({
                let s = build_multipak_spec(
                    path@,
                    match *manifest {
                        Option::Some(t) => Option::Some(t@),
                        Option::None => Option::None,
                    },
                );
                match r {
                    Ok(m) => s == Ok::<MultiPakV, ParseError>(m@),
                    Err(e) => s == Err::<MultiPakV, ParseError>(e),
                }
            }),
    {
        let text = match manifest {
            Option::Some(t) => t,
            Option::None => {
                return Err(ParseError::ManifestReadError);
            },
        };
        let j = match parse_json(text.as_str()) {
            Option::Some(j) => j,
            Option::None => {
                return Err(ParseError::ManifestParseError);
            },
        };
        let author = match j.get_str_field("author") {
            Option::Some(s) => s,
            Option::None => {
                return Err(ParseError::ManifestParseError);
            },
        };
        let description = match j.get_str_field("description") {
            Option::Some(s) => s,
            Option::None => {
                return Err(ParseError::ManifestParseError);
            },
        };
        let version = match j.get_str_field("version") {
            Option::Some(s) => s,
            Option::None => {
                return Err(ParseError::ManifestParseError);
            },
        };
        let name = match j.get_str_field("name") {
            Option::Some(s) => s,
            Option::None => {
                return Err(ParseError::ManifestParseError);
            },
        };
        let items = match j.get_field("paks") {
            Option::Some(v) => match v {
                JsonValue::Arr { items } => items,
                _ => {
                    return Err(ParseError::ManifestParseError);
                },
            },
            Option::None => {
                return Err(ParseError::ManifestParseError);
            },
        };
        let paks = match decode_paks(path.as_str(), items) {
            Option::Some(v) => v,
            Option::None => {
                return Err(ParseError::ManifestParseError);
            },
        };
        Ok(
            MultiPak {
                author,
                description,
                version,
                name,
                paks,
                enabled: false,
                path,
                selected_pak: 0,
            },
        )
    }

    /// The entry that deployment will copy.
    pub fn selected_pak(&self) -> (r: &Pak)
        requires
            self@.selected_pak < self@.paks.len(),
        ensures
            r@ == self@.paks[self@.selected_pak],
    {
        &self.paks[self.selected_pak]
    }
}

impl Pak {
    /// An entry holding only its asset file's name, with everything else
    /// empty.
    pub fn new(pak: String) -> (r: Self)
        ensures
            r@ == (PakV {
                name: Seq::empty(),
                description: Seq::empty(),
                images: Seq::empty(),
                pak: pak@,
                path: Seq::empty(),
            }),
    {
        let r = Pak {
            name: String::new(),
            description: String::new(),
            images: Vec::new(),
            pak,
            path: String::new(),
        };
        proof {
            assert(r@.images =~= Seq::<Seq<char>>::empty());
        }
        r
    }
}

} // verus!

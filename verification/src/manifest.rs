use vstd::prelude::*;

verus! {

/// The part of a loosely typed manifest value that the packaging logic
/// reads: strings, arrays, tables of named entries, and everything else
/// collapsed into `Other`. A table keeps its entries in order; a key is
/// looked up by its first occurrence.
#[derive(Debug, PartialEq)]
pub enum MetaValue {
    Str { value: String },
    Array { items: Vec<MetaValue> },
    Table { entries: Vec<(String, MetaValue)> },
    Other,
}

/// The first value bound to `key` in a table's entries, if any.
pub open spec fn spec_lookup(entries: Seq<(String, MetaValue)>, key: Seq<char>) -> Option<
    MetaValue,
>
    decreases entries.len(),
{
    if entries.len() == 0 {
        None
    } else if entries[0].0@ == key {
        Some(entries[0].1)
    } else {
        spec_lookup(entries.drop_first(), key)
    }
}

proof fn lemma_lookup_first(entries: Seq<(String, MetaValue)>, key: Seq<char>, i: int)
    requires
        0 <= i < entries.len(),
        entries[i].0@ == key,
        forall|j: int| 0 <= j < i ==> entries[j].0@ != key,
    ensures
        spec_lookup(entries, key) == Some(entries[i].1),
    decreases i,
{
    if i > 0 {
        assert forall|j: int| 0 <= j < i - 1 implies entries.drop_first()[j].0@ != key by {
            assert(entries.drop_first()[j] == entries[j + 1]);
        }
        lemma_lookup_first(entries.drop_first(), key, i - 1);
        assert(entries.drop_first()[i - 1] == entries[i]);
    }
}

proof fn lemma_lookup_none(entries: Seq<(String, MetaValue)>, key: Seq<char>)
    requires
        forall|j: int| 0 <= j < entries.len() ==> entries[j].0@ != key,
    ensures
        spec_lookup(entries, key) is None,
    decreases entries.len(),
{
    if entries.len() > 0 {
        assert forall|j: int|
            0 <= j < entries.drop_first().len() implies entries.drop_first()[j].0@ != key by {
            assert(entries.drop_first()[j] == entries[j + 1]);
        }
        lemma_lookup_none(entries.drop_first(), key);
    }
}

/// Find the first entry bound to `key`, returning its index.
pub fn table_find(entries: &Vec<(String, MetaValue)>, key: &String) -> (r: Option<usize>)
    ensures
        match r {
            Some(i) => {
                &&& i < entries@.len()
                &&& entries@[i as int].0@ == key@
                &&& spec_lookup(entries@, key@) == Some(entries@[i as int].1)
            },
            None => spec_lookup(entries@, key@) is None,
        },
{
    let mut i: usize = 0;
    while i < entries.len()
        invariant
            i <= entries@.len(),
            forall|j: int| 0 <= j < i ==> entries@[j].0@ != key@,
        decreases entries@.len() - i,
    {
        if entries[i].0 == *key {
            proof {
                lemma_lookup_first(entries@, key@, i as int);
            }
            return Some(i);
        }
        i += 1;
    }
    proof {
        lemma_lookup_none(entries@, key@);
    }
    None
}

/// A binary entry of the manifest: its target name, when one is given.
#[derive(Debug, PartialEq)]
pub struct BinEntry {
    pub name: Option<String>,
}

/// The package section of the manifest: its name, its version and its
/// loosely typed metadata block, each as the manifest declared it.
#[derive(Debug, PartialEq)]
pub struct PackageModel {
    pub name: String,
    pub version: Option<String>,
    pub metadata: Option<MetaValue>,
}

/// The parts of a parsed project manifest that the packaging logic reads:
/// the package section and the declared binary entries.
#[derive(Debug, PartialEq)]
pub struct ManifestModel {
    pub package: Option<PackageModel>,
    pub bins: Vec<BinEntry>,
}

/// The name of the manifest's first binary entry, if the manifest has one
/// and the entry carries a name.
pub open spec fn spec_first_bin_name(m: ManifestModel) -> Option<Seq<char>> {
    if m.bins@.len() == 0 {
        None
    } else {
        match m.bins@[0].name {
            Some(n) => Some(n@),
            None => None,
        }
    }
}

/// The declared package version; the empty sequence when it is missing.
pub open spec fn spec_manifest_version(m: ManifestModel) -> Seq<char> {
    match m.package {
        Some(p) => match p.version {
            Some(v) => v@,
            None => Seq::empty(),
        },
        None => Seq::empty(),
    }
}

/// The package's metadata block; `Other` when it is missing.
pub open spec fn spec_manifest_metadata(m: ManifestModel) -> MetaValue {
    match m.package {
        Some(p) => match p.metadata {
            Some(v) => v,
            None => MetaValue::Other,
        },
        None => MetaValue::Other,
    }
}

/// A manifest whose package section, version and metadata block are all
/// present: what the packaging step needs before it can start.
pub open spec fn spec_manifest_ready(m: ManifestModel) -> bool {
    match m.package {
        Some(p) => p.version is Some && p.metadata is Some,
        None => false,
    }
}

} // verus!

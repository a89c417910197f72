use vstd::prelude::*;
use crate::error::PackError;
use crate::manifest::{spec_lookup, table_find, MetaValue};

verus! {

/// An auxiliary file bundled into the final installer: either a single
/// source path, copied verbatim, or a source path mapped to a different
/// relative destination.
#[derive(Debug, Clone, PartialEq)]
pub enum Resource {
    Single { path: String },
    Mapped { src: String, target: String },
}

/// The mathematical value of a [`Resource`]: the same shape over
/// character sequences.
pub enum ResourceView {
    Single { path: Seq<char> },
    Mapped { src: Seq<char>, target: Seq<char> },
}

impl View for Resource {
    type V = ResourceView;

    open spec fn view(&self) -> ResourceView {
        match self {
            Resource::Single { path } => ResourceView::Single { path: path@ },
            Resource::Mapped { src, target } => ResourceView::Mapped {
                src: src@,
                target: target@,
            },
        }
    }
}

/// The typed metadata record extracted from the manifest's metadata block:
/// the installer identifier, the product name, and the optional resource
/// list, icon list and installer configuration block.
#[derive(Debug, PartialEq)]
pub struct PackageMetadata {
    pub identifier: String,
    pub product_name: String,
    pub resources: Option<Vec<Resource>>,
    pub icons: Option<Vec<String>>,
    pub nsis: Option<MetaValue>,
}

/// A metadata entry that can stand in the resource list: a plain string,
/// or a table binding `src` and `target` to strings.
pub open spec fn resource_wf(v: MetaValue) -> bool {
    match v {
        MetaValue::Str { .. } => true,
        MetaValue::Table { entries } => {
            &&& spec_lookup(entries@, "src"@) matches Some(MetaValue::Str { .. })
            &&& spec_lookup(entries@, "target"@) matches Some(MetaValue::Str { .. })
        },
        _ => false,
    }
}

/// The resource that a well-formed resource entry denotes.
pub open spec fn resource_of_meta(v: MetaValue) -> ResourceView {
    match v {
        MetaValue::Str { value } => ResourceView::Single { path: value@ },
        MetaValue::Table { entries } => ResourceView::Mapped {
            src: lookup_str(entries@, "src"@),
            target: lookup_str(entries@, "target"@),
        },
        _ => ResourceView::Single { path: Seq::empty() },
    }
}

/// The string bound to `key`, for entries whose value is known to be a
/// string; the empty sequence otherwise.
pub open spec fn lookup_str(entries: Seq<(String, MetaValue)>, key: Seq<char>) -> Seq<char> {
    match spec_lookup(entries, key) {
        Some(MetaValue::Str { value }) => value@,
        _ => Seq::empty(),
    }
}

/// The icon path that a well-formed icon entry denotes.
pub open spec fn icon_of_meta(v: MetaValue) -> Seq<char> {
    match v {
        MetaValue::Str { value } => value@,
        _ => Seq::empty(),
    }
}

/// A metadata block of the expected shape: a table with string values for
/// the required `identifier` and `product-name` keys; and, where present,
/// an array of well-formed entries under `resources`, an array of strings
/// under `icons`, and a table under `nsis`.
pub open spec fn meta_wf(meta: MetaValue) -> bool {
    &&& meta is Table
    &&& spec_lookup(meta->entries@, "identifier"@) matches Some(MetaValue::Str { .. })
    &&& spec_lookup(meta->entries@, "product-name"@) matches Some(MetaValue::Str { .. })
    &&& match spec_lookup(meta->entries@, "resources"@) {
        None => true,
        Some(MetaValue::Array { items }) => forall|i: int|
            0 <= i < items@.len() ==> resource_wf(#[trigger] items@[i]),
        Some(_) => false,
    }
    &&& match spec_lookup(meta->entries@, "icons"@) {
        None => true,
        Some(MetaValue::Array { items }) => forall|i: int|
            0 <= i < items@.len() ==> (#[trigger] items@[i]) is Str,
        Some(_) => false,
    }
    &&& match spec_lookup(meta->entries@, "nsis"@) {
        None => true,
        Some(v) => v is Table,
    }
}

/// The `identifier` string of a well-formed metadata block.
pub open spec fn meta_identifier(meta: MetaValue) -> Seq<char> {
    lookup_str(meta->entries@, "identifier"@)
}

/// The `product-name` string of a well-formed metadata block.
pub open spec fn meta_product_name(meta: MetaValue) -> Seq<char> {
    lookup_str(meta->entries@, "product-name"@)
}

/// The entries of the `resources` array, when the block has one.
pub open spec fn meta_resources(meta: MetaValue) -> Option<Seq<MetaValue>> {
    match spec_lookup(meta->entries@, "resources"@) {
        Some(MetaValue::Array { items }) => Some(items@),
        _ => None,
    }
}

/// The entries of the `icons` array, when the block has one.
pub open spec fn meta_icons(meta: MetaValue) -> Option<Seq<MetaValue>> {
    match spec_lookup(meta->entries@, "icons"@) {
        Some(MetaValue::Array { items }) => Some(items@),
        _ => None,
    }
}

/// The `nsis` installer block, when the metadata has one.
pub open spec fn meta_nsis(meta: MetaValue) -> Option<MetaValue> {
    spec_lookup(meta->entries@, "nsis"@)
}

fn schema_error() -> (e: PackError)
    ensures
        e is Schema,
{
    PackError::Schema { detail: String::from_str("package metadata does not match the expected shape") }
}

/// Read one resource entry: a string stands for a single path, a table
/// must bind `src` and `target` to strings.
pub fn parse_resource(v: &MetaValue) -> (r: Result<Resource, PackError>)
    ensures
        r is Ok <==> resource_wf(*v),
        r matches Ok(res) ==> res@ == resource_of_meta(*v),
        r matches Err(e) ==> e is Schema,
{
    match v {
        MetaValue::Str { value } => Ok(Resource::Single { path: value.clone() }),
        MetaValue::Table { entries } => {
            let key_src = String::from_str("src");
            let src = match table_find(entries, &key_src) {
                Some(i) => match &entries[i].1 {
                    MetaValue::Str { value } => value.clone(),
                    _ => return Err(schema_error()),
                },
                None => return Err(schema_error()),
            };
            let key_target = String::from_str("target");
            let target = match table_find(entries, &key_target) {
                Some(i) => match &entries[i].1 {
                    MetaValue::Str { value } => value.clone(),
                    _ => return Err(schema_error()),
                },
                None => return Err(schema_error()),
            };
            Ok(Resource::Mapped { src, target })
        },
        _ => Err(schema_error()),
    }
}

/// Read the whole resource list, failing on the first entry that is not a
/// well-formed resource.
pub fn parse_resources(items: &Vec<MetaValue>) -> (r: Result<Vec<Resource>, PackError>)
    ensures
        r is Ok <==> (forall|i: int| 0 <= i < items@.len() ==> resource_wf(#[trigger] items@[i])),
        r matches Ok(rs) ==> rs@.len() == items@.len() && (forall|i: int|
            0 <= i < items@.len() ==> (#[trigger] rs@[i])@ == resource_of_meta(items@[i])),
        r matches Err(e) ==> e is Schema,
{
    let mut out: Vec<Resource> = Vec::new();
    let mut idx: usize = 0;
    while idx < items.len()
        invariant
            idx <= items@.len(),
            out@.len() == idx,
            forall|j: int| 0 <= j < idx ==> resource_wf(#[trigger] items@[j]),
            forall|j: int| 0 <= j < idx ==> (#[trigger] out@[j])@ == resource_of_meta(items@[j]),
        decreases items@.len() - idx,
    {
        match parse_resource(&items[idx]) {
            Ok(res) => out.push(res),
            Err(e) => return Err(e),
        }
        idx += 1;
    }
    Ok(out)
}

/// Read the whole icon list, failing on the first entry that is not a
/// string.
pub fn parse_icons(items: &Vec<MetaValue>) -> (r: Result<Vec<String>, PackError>)
    ensures
        r is Ok <==> (forall|i: int| 0 <= i < items@.len() ==> (#[trigger] items@[i]) is Str),
        r matches Ok(ps) ==> ps@.len() == items@.len() && (forall|i: int|
            0 <= i < items@.len() ==> (#[trigger] ps@[i])@ == icon_of_meta(items@[i])),
        r matches Err(e) ==> e is Schema,
{
    let mut out: Vec<String> = Vec::new();
    let mut idx: usize = 0;
    while idx < items.len()
        invariant
            idx <= items@.len(),
            out@.len() == idx,
            forall|j: int| 0 <= j < idx ==> (#[trigger] items@[j]) is Str,
            forall|j: int| 0 <= j < idx ==> (#[trigger] out@[j])@ == icon_of_meta(items@[j]),
        decreases items@.len() - idx,
    {
        match &items[idx] {
            MetaValue::Str { value } => out.push(value.clone()),
            _ => return Err(schema_error()),
        }
        idx += 1;
    }
    Ok(out)
}

/// Extract the typed metadata record out of the manifest's metadata block.
///
/// The extraction is strict: it succeeds exactly on a block of the
/// expected shape, and a missing or mistyped `identifier` or
/// `product-name` is an error, never silently defaulted. The optional
/// lists default to absent only when their key is absent.
pub fn extract_metadata(meta: MetaValue) -> (r: Result<PackageMetadata, PackError>)
    ensures
        r is Ok <==> meta_wf(meta),
        r matches Err(e) ==> e is Schema,
        r matches Ok(m) ==> {
            &&& m.identifier@ == meta_identifier(meta)
            &&& m.product_name@ == meta_product_name(meta)
            &&& match meta_resources(meta) {
                None => m.resources is None,
                Some(items) => m.resources matches Some(rs) && rs@.len() == items.len() && (
                forall|i: int|
                    0 <= i < items.len() ==> (#[trigger] rs@[i])@ == resource_of_meta(items[i])),
            }
            &&& match meta_icons(meta) {
                None => m.icons is None,
                Some(items) => m.icons matches Some(ps) && ps@.len() == items.len() && (
                forall|i: int|
                    0 <= i < items.len() ==> (#[trigger] ps@[i])@ == icon_of_meta(items[i])),
            }
            &&& m.nsis == meta_nsis(meta)
        },
{
    let mut entries = match meta {
        MetaValue::Table { entries } => entries,
        _ => return Err(schema_error()),
    };
    let key_identifier = String::from_str("identifier");
    let identifier = match table_find(&entries, &key_identifier) {
        Some(i) => match &entries[i].1 {
            MetaValue::Str { value } => value.clone(),
            _ => return Err(schema_error()),
        },
        None => return Err(schema_error()),
    };
    let key_product_name = String::from_str("product-name");
    let product_name = match table_find(&entries, &key_product_name) {
        Some(i) => match &entries[i].1 {
            MetaValue::Str { value } => value.clone(),
            _ => return Err(schema_error()),
        },
        None => return Err(schema_error()),
    };
    let key_resources = String::from_str("resources");
    let resources = match table_find(&entries, &key_resources) {
        Some(i) => match &entries[i].1 {
            MetaValue::Array { items } => match parse_resources(items) {
                Ok(rs) => Some(rs),
                Err(e) => return Err(e),
            },
            _ => return Err(schema_error()),
        },
        None => None,
    };
    let key_icons = String::from_str("icons");
    let icons = match table_find(&entries, &key_icons) {
        Some(i) => match &entries[i].1 {
            MetaValue::Array { items } => match parse_icons(items) {
                Ok(ps) => Some(ps),
                Err(e) => return Err(e),
            },
            _ => return Err(schema_error()),
        },
        None => None,
    };
    let key_nsis = String::from_str("nsis");
    let nsis = match table_find(&entries, &key_nsis) {
        Some(i) => {
            let pair = entries.remove(i);
            let v = pair.1;
            match &v {
                MetaValue::Table { .. } => Some(v),
                _ => return Err(schema_error()),
            }
        },
        None => None,
    };
    Ok(PackageMetadata { identifier, product_name, resources, icons, nsis })
}

} // verus!

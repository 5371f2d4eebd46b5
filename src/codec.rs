use vstd::prelude::*;

use crate::json::{get_field, lemma_lookup_absent, lemma_lookup_at, lookup, Json};
use crate::manifest::{
    CatalogView, ExtraPropView, ExtraView, Manifest, ManifestCatalog, ManifestExtra,
    ManifestExtraProp, ManifestResource, ManifestView, ResourceView, Texts,
};
use crate::version::{parsed_version, Version};

verus! {

/// The text a value holds, if it is a text.
pub open spec fn text_of(v: Json) -> Option<Seq<char>> {
    match v {
        Json::Str(s) => Some(s@),
        _ => None,
    }
}

/// The texts of a list whose items are all texts.
pub open spec fn texts_of(items: Seq<Json>) -> Option<Texts> {
    if forall|i: int| 0 <= i < items.len() ==> (#[trigger] text_of(items[i])) is Some {
        Some(Seq::new(items.len(), |i: int| text_of(items[i])->0))
    } else {
        None
    }
}

/// A field that must hold a text.
pub open spec fn required_text(v: Option<Json>) -> Option<Seq<char>> {
    match v {
        Some(j) => text_of(j),
        None => None,
    }
}

/// A field that may be absent or null, or else holds a text.
pub open spec fn optional_text(v: Option<Json>) -> Option<Option<Seq<char>>> {
    match v {
        None => Some(None),
        Some(Json::Null) => Some(None),
        Some(Json::Str(s)) => Some(Some(s@)),
        _ => None,
    }
}

/// A field that may be absent or null, or else holds a list of texts.
pub open spec fn optional_texts(v: Option<Json>) -> Option<Option<Texts>> {
    match v {
        None => Some(None),
        Some(Json::Null) => Some(None),
        Some(Json::Array(a)) => match texts_of(a@) {
            Some(t) => Some(Some(t)),
            None => None,
        },
        _ => None,
    }
}

/// A list of texts that is empty where the field is absent.
pub open spec fn defaulted_texts(v: Option<Json>) -> Option<Texts> {
    match v {
        None => Some(Seq::empty()),
        Some(Json::Array(a)) => texts_of(a@),
        _ => None,
    }
}

/// A flag that is false where the field is absent.
pub open spec fn defaulted_flag(v: Option<Json>) -> Option<bool> {
    match v {
        None => Some(false),
        Some(Json::Bool(b)) => Some(b),
        _ => None,
    }
}

/// A resource entry: a bare name, or an object with the name and the lists.
pub open spec fn resource_of(v: Json) -> Option<ResourceView> {
    match v {
        Json::Str(s) => Some(ResourceView { name: s@, types: None, id_prefixes: None }),
        Json::Object(o) => {
            let name = required_text(lookup(o@, "name"@));
            let types = optional_texts(lookup(o@, "types"@));
            let prefixes = optional_texts(lookup(o@, "idPrefixes"@));
            if name is Some && types is Some && prefixes is Some {
                Some(ResourceView { name: name->0, types: types->0, id_prefixes: prefixes->0 })
            } else {
                None
            }
        },
        _ => None,
    }
}

/// The resources of a list whose entries all decode.
pub open spec fn resources_of(items: Seq<Json>) -> Option<Seq<ResourceView>> {
    if forall|i: int| 0 <= i < items.len() ==> (#[trigger] resource_of(items[i])) is Some {
        Some(Seq::new(items.len(), |i: int| resource_of(items[i])->0))
    } else {
        None
    }
}

/// One extra parameter of the modern notation.
pub open spec fn prop_of(v: Json) -> Option<ExtraPropView> {
    match v {
        Json::Object(o) => {
            let name = required_text(lookup(o@, "name"@));
            let required = defaulted_flag(lookup(o@, "isRequired"@));
            let values = optional_texts(lookup(o@, "values"@));
            if name is Some && required is Some && values is Some {
                Some(ExtraPropView { name: name->0, is_required: required->0, values: values->0 })
            } else {
                None
            }
        },
        _ => None,
    }
}

/// The parameters of a list whose entries all decode.
pub open spec fn props_of(items: Seq<Json>) -> Option<Seq<ExtraPropView>> {
    if forall|i: int| 0 <= i < items.len() ==> (#[trigger] prop_of(items[i])) is Some {
        Some(Seq::new(items.len(), |i: int| prop_of(items[i])->0))
    } else {
        None
    }
}

/// The modern notation, where the catalog has an `extra` list that decodes.
pub open spec fn full_extra_of(o: Seq<(String, Json)>) -> Option<Seq<ExtraPropView>> {
    match lookup(o, "extra"@) {
        Some(Json::Array(a)) => props_of(a@),
        _ => None,
    }
}

/// The extra parameters of a catalog object: the modern notation where it
/// decodes, else the two legacy lists, each empty where absent.
pub open spec fn extra_of(o: Seq<(String, Json)>) -> Option<ExtraView> {
    let full = full_extra_of(o);
    if full is Some {
        Some(ExtraView::Full { props: full->0 })
    } else {
        let required = defaulted_texts(lookup(o, "extraRequired"@));
        let supported = defaulted_texts(lookup(o, "extraSupported"@));
        if required is Some && supported is Some {
            Some(ExtraView::Simple { required: required->0, supported: supported->0 })
        } else {
            None
        }
    }
}

/// One catalog entry.
pub open spec fn catalog_of(v: Json) -> Option<CatalogView> {
    match v {
        Json::Object(o) => {
            let content_type = required_text(lookup(o@, "type"@));
            let id = required_text(lookup(o@, "id"@));
            let name = optional_text(lookup(o@, "name"@));
            let extra = extra_of(o@);
            if content_type is Some && id is Some && name is Some && extra is Some {
                Some(
                    CatalogView {
                        content_type: content_type->0,
                        id: id->0,
                        name: name->0,
                        extra: extra->0,
                    },
                )
            } else {
                None
            }
        },
        _ => None,
    }
}

/// The catalogs of a list whose entries all decode.
pub open spec fn catalogs_of(items: Seq<Json>) -> Option<Seq<CatalogView>> {
    if forall|i: int| 0 <= i < items.len() ==> (#[trigger] catalog_of(items[i])) is Some {
        Some(Seq::new(items.len(), |i: int| catalog_of(items[i])->0))
    } else {
        None
    }
}

/// The version field: a text that semver reads.
pub open spec fn version_of(v: Option<Json>) -> Option<(u64, u64, u64, Seq<char>, Seq<char>)> {
    match v {
        Some(Json::Str(s)) => parsed_version(s@),
        _ => None,
    }
}

/// The resource list, which must be present.
pub open spec fn resource_list_of(v: Option<Json>) -> Option<Seq<ResourceView>> {
    match v {
        Some(Json::Array(a)) => resources_of(a@),
        _ => None,
    }
}

/// The catalog list, empty where absent.
pub open spec fn catalog_list_of(v: Option<Json>) -> Option<Seq<CatalogView>> {
    match v {
        None => Some(Seq::empty()),
        Some(Json::Array(a)) => catalogs_of(a@),
        _ => None,
    }
}

/// The manifest a document describes, or `None` where it is not one.
pub open spec fn manifest_of(v: Json) -> Option<ManifestView> {
    match v {
        Json::Object(o) => {
            let id = required_text(lookup(o@, "id"@));
            let version = version_of(lookup(o@, "version"@));
            let name = required_text(lookup(o@, "name"@));
            let description = optional_text(lookup(o@, "description"@));
            let logo = optional_text(lookup(o@, "logo"@));
            let background = optional_text(lookup(o@, "background"@));
            let resources = resource_list_of(lookup(o@, "resources"@));
            let types = optional_texts(lookup(o@, "types"@));
            let id_prefixes = optional_texts(lookup(o@, "idPrefixes"@));
            let catalogs = catalog_list_of(lookup(o@, "catalogs"@));
            if id is Some && version is Some && name is Some && description is Some && logo is Some
                && background is Some && resources is Some && types is Some && id_prefixes is Some
                && catalogs is Some {
                Some(
                    ManifestView {
                        id: id->0,
                        version: version->0,
                        name: name->0,
                        description: description->0,
                        logo: logo->0,
                        background: background->0,
                        resources: resources->0,
                        types: types->0,
                        id_prefixes: id_prefixes->0,
                        catalogs: catalogs->0,
                    },
                )
            } else {
                None
            }
        },
        _ => None,
    }
}

/// `i` is the first entry of a resource list that does not decode.
pub open spec fn first_bad_resource(items: Seq<Json>, i: int) -> bool {
    &&& 0 <= i < items.len()
    &&& resource_of(items[i]) is None
    &&& forall|j: int| 0 <= j < i ==> (#[trigger] resource_of(items[j])) is Some
}

/// `i` is the first entry of a catalog list that does not decode.
pub open spec fn first_bad_catalog(items: Seq<Json>, i: int) -> bool {
    &&& 0 <= i < items.len()
    &&& catalog_of(items[i]) is None
    &&& forall|j: int| 0 <= j < i ==> (#[trigger] catalog_of(items[j])) is Some
}

/// The position reported with the error for field `field`: where that field
/// is the resource or catalog list and holds a list, its first entry that
/// does not decode; otherwise none.
pub open spec fn fault_position(v: Json, field: Seq<char>, position: Option<usize>) -> bool {
    match v {
        Json::Object(o) => {
            if field == "resources"@ {
                match lookup(o@, "resources"@) {
                    Some(Json::Array(a)) => position matches Some(i) && first_bad_resource(a@, i as int),
                    _ => position is None,
                }
            } else if field == "catalogs"@ {
                match lookup(o@, "catalogs"@) {
                    Some(Json::Array(a)) => position matches Some(i) && first_bad_catalog(a@, i as int),
                    _ => position is None,
                }
            } else {
                position is None
            }
        },
        _ => position is None,
    }
}

/// The field named by the error for a document that is not a manifest:
/// the first one, in the order they are read, that is missing or malformed.
pub open spec fn fault_of(v: Json) -> Seq<char> {
    match v {
        Json::Object(o) => {
            if required_text(lookup(o@, "id"@)) is None {
                "id"@
            } else if version_of(lookup(o@, "version"@)) is None {
                "version"@
            } else if required_text(lookup(o@, "name"@)) is None {
                "name"@
            } else if optional_text(lookup(o@, "description"@)) is None {
                "description"@
            } else if optional_text(lookup(o@, "logo"@)) is None {
                "logo"@
            } else if optional_text(lookup(o@, "background"@)) is None {
                "background"@
            } else if resource_list_of(lookup(o@, "resources"@)) is None {
                "resources"@
            } else if optional_texts(lookup(o@, "types"@)) is None {
                "types"@
            } else if optional_texts(lookup(o@, "idPrefixes"@)) is None {
                "idPrefixes"@
            } else {
                "catalogs"@
            }
        },
        _ => "manifest"@,
    }
}

/// The texts of a list, or `None` when some item is not a text.
fn decode_texts(items: &Vec<Json>) -> (r: Option<Vec<String>>)
    ensures
        match r {
            Some(t) => texts_of(items@) == Some(t.deep_view()),
            None => texts_of(items@) is None,
        },
{
    let mut out: Vec<String> = Vec::new();
    let mut i: usize = 0;
    while i < items.len()
        invariant
            i <= items@.len(),
            out@.len() == i,
            forall|j: int| 0 <= j < i ==> (#[trigger] text_of(items@[j])) == Some(out@[j]@),
        decreases items.len() - i,
    {
        match &items[i] {
            Json::Str(s) => {
                out.push(s.clone());
            },
            _ => {
                assert(text_of(items@[i as int]) is None);
                return None;
            },
        }
        i = i + 1;
    }
    assert(forall|j: int| 0 <= j < items@.len() ==> (#[trigger] text_of(items@[j])) is Some);
    assert(Seq::new(items@.len(), |j: int| text_of(items@[j])->0) =~= out.deep_view());
    Some(out)
}

/// The field `key` of `obj`, which must hold a text.
fn field_text(obj: &Vec<(String, Json)>, key: &str) -> (r: Option<String>)
    ensures
        match r {
            Some(t) => required_text(lookup(obj@, key@)) == Some(t@),
            None => required_text(lookup(obj@, key@)) is None,
        },
{
    match get_field(obj, key) {
        Some(Json::Str(s)) => Some(s.clone()),
        _ => None,
    }
}

/// The field `key` of `obj`, which may be absent or null, or hold a text.
fn field_optional_text(obj: &Vec<(String, Json)>, key: &str) -> (r: Option<Option<String>>)
    ensures
        match r {
            Some(t) => optional_text(lookup(obj@, key@)) == Some(t.deep_view()),
            None => optional_text(lookup(obj@, key@)) is None,
        },
{
    match get_field(obj, key) {
        None => Some(None),
        Some(Json::Null) => Some(None),
        Some(Json::Str(s)) => Some(Some(s.clone())),
        _ => None,
    }
}

/// The field `key` of `obj`, which may be absent or null, or hold a list of
/// texts.
fn field_optional_texts(obj: &Vec<(String, Json)>, key: &str) -> (r: Option<Option<Vec<String>>>)
    ensures
        match r {
            Some(t) => optional_texts(lookup(obj@, key@)) == Some(t.deep_view()),
            None => optional_texts(lookup(obj@, key@)) is None,
        },
{
    match get_field(obj, key) {
        None => Some(None),
        Some(Json::Null) => Some(None),
        Some(Json::Array(a)) => match decode_texts(a) {
            Some(t) => Some(Some(t)),
            None => None,
        },
        _ => None,
    }
}

/// The field `key` of `obj`, a list of texts that is empty where absent.
fn field_defaulted_texts(obj: &Vec<(String, Json)>, key: &str) -> (r: Option<Vec<String>>)
    ensures
        match r {
            Some(t) => defaulted_texts(lookup(obj@, key@)) == Some(t.deep_view()),
            None => defaulted_texts(lookup(obj@, key@)) is None,
        },
{
    match get_field(obj, key) {
        None => {
            let t: Vec<String> = Vec::new();
            assert(t.deep_view() =~= Seq::<Seq<char>>::empty());
            Some(t)
        },
        Some(Json::Array(a)) => decode_texts(a),
        _ => None,
    }
}

/// The field `key` of `obj`, a flag that is false where absent.
fn field_defaulted_flag(obj: &Vec<(String, Json)>, key: &str) -> (r: Option<bool>)
    ensures
        r == defaulted_flag(lookup(obj@, key@)),
{
    match get_field(obj, key) {
        None => Some(false),
        Some(Json::Bool(b)) => Some(*b),
        _ => None,
    }
}

impl ManifestResource {
    /// A resource given by its name alone, with no lists of its own.
    pub fn from_name(name: &str) -> (r: ManifestResource)
        ensures
            r@ == (ResourceView { name: name@, types: None, id_prefixes: None }),
    {
        ManifestResource { name: name.to_owned(), types: None, id_prefixes: None }
    }
}

impl core::str::FromStr for ManifestResource {
    type Err = ();

    fn from_str(s: &str) -> (r: Result<ManifestResource, ()>)
        ensures
            r is Ok,
            r->Ok_0@ == (ResourceView { name: s@, types: None, id_prefixes: None }),
    {
        Ok(ManifestResource::from_name(s))
    }
}

/// One resource entry, in either notation.
pub fn decode_resource(v: &Json) -> (r: Option<ManifestResource>)
    ensures
        match r {
            Some(res) => resource_of(*v) == Some(res@),
            None => resource_of(*v) is None,
        },
{
    match v {
        Json::Str(s) => Some(ManifestResource::from_name(s.as_str())),
        Json::Object(o) => {
            let name = field_text(o, "name");
            let types = field_optional_texts(o, "types");
            let prefixes = field_optional_texts(o, "idPrefixes");
            match (name, types, prefixes) {
                (Some(name), Some(types), Some(id_prefixes)) => Some(
                    ManifestResource { name, types, id_prefixes },
                ),
                _ => None,
            }
        },
        _ => None,
    }
}

/// The entries of a resource list, or the position of the first entry that
/// does not decode.
pub fn decode_resources(items: &Vec<Json>) -> (r: Result<Vec<ManifestResource>, usize>)
    ensures
        match r {
            Ok(rs) => resources_of(items@) == Some(rs@.map_values(|x: ManifestResource| x@)),
            Err(i) => resources_of(items@) is None && first_bad_resource(items@, i as int),
        },
{
    let mut out: Vec<ManifestResource> = Vec::new();
    let mut i: usize = 0;
    while i < items.len()
        invariant
            i <= items@.len(),
            out@.len() == i,
            forall|j: int| 0 <= j < i ==> (#[trigger] resource_of(items@[j])) == Some(out@[j]@),
        decreases items.len() - i,
    {
        match decode_resource(&items[i]) {
            Some(res) => out.push(res),
            None => return Err(i),
        }
        i = i + 1;
    }
    assert(forall|j: int| 0 <= j < items@.len() ==> (#[trigger] resource_of(items@[j])) is Some);
    assert(Seq::new(items@.len(), |j: int| resource_of(items@[j])->0) =~= out@.map_values(
        |x: ManifestResource| x@,
    ));
    Ok(out)
}

/// One extra parameter of the modern notation.
fn decode_prop(v: &Json) -> (r: Option<ManifestExtraProp>)
    ensures
        match r {
            Some(p) => prop_of(*v) == Some(p@),
            None => prop_of(*v) is None,
        },
{
    match v {
        Json::Object(o) => {
            let name = field_text(o, "name");
            let required = field_defaulted_flag(o, "isRequired");
            let values = field_optional_texts(o, "values");
            match (name, required, values) {
                (Some(name), Some(is_required), Some(values)) => Some(
                    ManifestExtraProp { name, is_required, values },
                ),
                _ => None,
            }
        },
        _ => None,
    }
}

/// The parameters of a list, or `None` when some entry does not decode.
fn decode_props(items: &Vec<Json>) -> (r: Option<Vec<ManifestExtraProp>>)
    ensures
        match r {
            Some(ps) => props_of(items@) == Some(ps@.map_values(|p: ManifestExtraProp| p@)),
            None => props_of(items@) is None,
        },
{
    let mut out: Vec<ManifestExtraProp> = Vec::new();
    let mut i: usize = 0;
    while i < items.len()
        invariant
            i <= items@.len(),
            out@.len() == i,
            forall|j: int| 0 <= j < i ==> (#[trigger] prop_of(items@[j])) == Some(out@[j]@),
        decreases items.len() - i,
    {
        match decode_prop(&items[i]) {
            Some(p) => out.push(p),
            None => return None,
        }
        i = i + 1;
    }
    assert(forall|j: int| 0 <= j < items@.len() ==> (#[trigger] prop_of(items@[j])) is Some);
    assert(Seq::new(items@.len(), |j: int| prop_of(items@[j])->0) =~= out@.map_values(
        |p: ManifestExtraProp| p@,
    ));
    Some(out)
}

/// The extra parameters of a catalog object, in the notation it uses.
fn decode_extra(obj: &Vec<(String, Json)>) -> (r: Option<ManifestExtra>)
    ensures
        match r {
            Some(e) => extra_of(obj@) == Some(e@),
            None => extra_of(obj@) is None,
        },
{
    let full = match get_field(obj, "extra") {
        Some(Json::Array(a)) => decode_props(a),
        _ => None,
    };
    match full {
        Some(props) => Some(ManifestExtra::Full { props }),
        None => {
            let required = field_defaulted_texts(obj, "extraRequired");
            let supported = field_defaulted_texts(obj, "extraSupported");
            match (required, supported) {
                (Some(required), Some(supported)) => Some(ManifestExtra::Simple { required, supported }),
                _ => None,
            }
        },
    }
}

/// One catalog entry.
fn decode_catalog(v: &Json) -> (r: Option<ManifestCatalog>)
    ensures
        match r {
            Some(c) => catalog_of(*v) == Some(c@),
            None => catalog_of(*v) is None,
        },
{
    match v {
        Json::Object(o) => {
            let content_type = field_text(o, "type");
            let id = field_text(o, "id");
            let name = field_optional_text(o, "name");
            let extra = decode_extra(o);
            match (content_type, id, name, extra) {
                (Some(content_type), Some(id), Some(name), Some(extra)) => Some(
                    ManifestCatalog { content_type, id, name, extra },
                ),
                _ => None,
            }
        },
        _ => None,
    }
}

/// The entries of a catalog list, or the position of the first entry that
/// does not decode.
fn decode_catalogs(items: &Vec<Json>) -> (r: Result<Vec<ManifestCatalog>, usize>)
    ensures
        match r {
            Ok(cs) => catalogs_of(items@) == Some(cs@.map_values(|c: ManifestCatalog| c@)),
            Err(i) => catalogs_of(items@) is None && first_bad_catalog(items@, i as int),
        },
{
    let mut out: Vec<ManifestCatalog> = Vec::new();
    let mut i: usize = 0;
    while i < items.len()
        invariant
            i <= items@.len(),
            out@.len() == i,
            forall|j: int| 0 <= j < i ==> (#[trigger] catalog_of(items@[j])) == Some(out@[j]@),
        decreases items.len() - i,
    {
        match decode_catalog(&items[i]) {
            Some(c) => out.push(c),
            None => return Err(i),
        }
        i = i + 1;
    }
    assert(forall|j: int| 0 <= j < items@.len() ==> (#[trigger] catalog_of(items@[j])) is Some);
    assert(Seq::new(items@.len(), |j: int| catalog_of(items@[j])->0) =~= out@.map_values(
        |c: ManifestCatalog| c@,
    ));
    Ok(out)
}

/// Why a document is not a manifest: the field that is missing or
/// malformed, and for a list, the position of the entry at fault.
#[derive(Debug, Clone, PartialEq)]
pub struct DecodeError {
    pub field: String,
    pub position: Option<usize>,
}

fn invalid(field: &str, position: Option<usize>) -> (r: DecodeError)
    ensures
        r.field@ == field@,
        r.position == position,
{
    DecodeError { field: field.to_owned(), position }
}

/// Reads a manifest from a document, in whichever notation each of its
/// resource entries and catalogs uses.
pub fn decode_manifest(v: &Json) -> (r: Result<Manifest, DecodeError>)
    ensures
        match r {
            Ok(m) => manifest_of(*v) == Some(m@),
            Err(e) => {
                &&& manifest_of(*v) is None
                &&& e.field@ == fault_of(*v)
                &&& fault_position(*v, e.field@, e.position)
            },
        },
{
    proof {
        reveal_strlit("manifest");
        reveal_strlit("id");
        reveal_strlit("version");
        reveal_strlit("name");
        reveal_strlit("description");
        reveal_strlit("logo");
        reveal_strlit("background");
        reveal_strlit("resources");
        reveal_strlit("types");
        reveal_strlit("idPrefixes");
        reveal_strlit("catalogs");
        assert("manifest"@.len() == 8 && "id"@.len() == 2 && "version"@.len() == 7);
        assert("name"@.len() == 4 && "description"@.len() == 11 && "logo"@.len() == 4);
        assert("background"@.len() == 10 && "resources"@.len() == 9 && "types"@.len() == 5);
        assert("idPrefixes"@.len() == 10 && "catalogs"@.len() == 8);
        assert("manifest"@[0] != "catalogs"@[0]);
    }
    let o = match v {
        Json::Object(o) => o,
        _ => return Err(invalid("manifest", None)),
    };
    let id = match field_text(o, "id") {
        Some(t) => t,
        None => return Err(invalid("id", None)),
    };
    let version = match get_field(o, "version") {
        Some(Json::Str(s)) => match Version::parse(s.as_str()) {
            Some(version) => version,
            None => return Err(invalid("version", None)),
        },
        _ => return Err(invalid("version", None)),
    };
    let name = match field_text(o, "name") {
        Some(t) => t,
        None => return Err(invalid("name", None)),
    };
    let description = match field_optional_text(o, "description") {
        Some(t) => t,
        None => return Err(invalid("description", None)),
    };
    let logo = match field_optional_text(o, "logo") {
        Some(t) => t,
        None => return Err(invalid("logo", None)),
    };
    let background = match field_optional_text(o, "background") {
        Some(t) => t,
        None => return Err(invalid("background", None)),
    };
    let resources = match get_field(o, "resources") {
        Some(Json::Array(a)) => match decode_resources(a) {
            Ok(rs) => rs,
            Err(i) => return Err(invalid("resources", Some(i))),
        },
        _ => return Err(invalid("resources", None)),
    };
    let types = match field_optional_texts(o, "types") {
        Some(t) => t,
        None => return Err(invalid("types", None)),
    };
    let id_prefixes = match field_optional_texts(o, "idPrefixes") {
        Some(t) => t,
        None => return Err(invalid("idPrefixes", None)),
    };
    let catalogs = match get_field(o, "catalogs") {
        None => {
            let cs: Vec<ManifestCatalog> = Vec::new();
            assert(cs@.map_values(|c: ManifestCatalog| c@) =~= Seq::<CatalogView>::empty());
            cs
        },
        Some(Json::Array(a)) => match decode_catalogs(a) {
            Ok(cs) => cs,
            Err(i) => return Err(invalid("catalogs", Some(i))),
        },
        _ => return Err(invalid("catalogs", None)),
    };
    Ok(
        Manifest {
            id,
            version,
            name,
            description,
            logo,
            background,
            resources,
            types,
            id_prefixes,
            catalogs,
        },
    )
}

/// An entry of an object.
fn entry(key: &str, value: Json) -> (r: (String, Json))
    ensures
        r.0@ == key@,
        r.1 == value,
{
    (key.to_owned(), value)
}

/// A text as a value.
fn text_value(t: &String) -> (r: Json)
    ensures
        text_of(r) == Some(t@),
        required_text(Some(r)) == Some(t@),
{
    Json::Str(t.clone())
}

/// The items of a list of texts.
fn encode_texts(list: &Vec<String>) -> (r: Vec<Json>)
    ensures
        texts_of(r@) == Some(list.deep_view()),
{
    let mut out: Vec<Json> = Vec::new();
    let mut i: usize = 0;
    while i < list.len()
        invariant
            i <= list@.len(),
            out@.len() == i,
            forall|j: int| 0 <= j < i ==> (#[trigger] text_of(out@[j])) == Some(list@[j]@),
        decreases list.len() - i,
    {
        out.push(text_value(&list[i]));
        i = i + 1;
    }
    assert(forall|j: int| 0 <= j < out@.len() ==> (#[trigger] text_of(out@[j])) is Some);
    assert(Seq::new(out@.len(), |j: int| text_of(out@[j])->0) =~= list.deep_view());
    out
}

/// A list of texts that may be absent, as null or a list.
fn encode_optional_texts(list: &Option<Vec<String>>) -> (r: Json)
    ensures
        optional_texts(Some(r)) == Some(list.deep_view()),
{
    match list {
        None => Json::Null,
        Some(l) => Json::Array(encode_texts(l)),
    }
}

/// A text that may be absent, as null or a text.
fn encode_optional_text(t: &Option<String>) -> (r: Json)
    ensures
        optional_text(Some(r)) == Some(t.deep_view()),
{
    match t {
        None => Json::Null,
        Some(s) => Json::Str(s.clone()),
    }
}

/// The keys of an encoded resource, in the order they are written.
pub open spec fn resource_keys() -> Seq<Seq<char>> {
    seq!["name"@, "types"@, "idPrefixes"@]
}

/// A resource in the verbose notation, every field present (absent lists as
/// null), which reads back as the same resource.
pub fn encode_resource(res: &ManifestResource) -> (r: Json)
    ensures
        resource_of(r) == Some(res@),
        r matches Json::Object(o) && o@.map_values(|e: (String, Json)| e.0@) == resource_keys()
            && null_when_absent(res.types, lookup(o@, "types"@))
            && null_when_absent(res.id_prefixes, lookup(o@, "idPrefixes"@)),
{
    let mut fields: Vec<(String, Json)> = Vec::new();
    fields.push(entry("name", text_value(&res.name)));
    fields.push(entry("types", encode_optional_texts(&res.types)));
    fields.push(entry("idPrefixes", encode_optional_texts(&res.id_prefixes)));
    proof {
        reveal_strlit("name");
        reveal_strlit("types");
        reveal_strlit("idPrefixes");
        assert("name"@ != "types"@ && "name"@ != "idPrefixes"@ && "types"@ != "idPrefixes"@) by {
            assert("name"@.len() == 4 && "types"@.len() == 5 && "idPrefixes"@.len() == 10);
        }
        lemma_lookup_at(fields@, 0);
        lemma_lookup_at(fields@, 1);
        lemma_lookup_at(fields@, 2);
        assert(fields@.map_values(|e: (String, Json)| e.0@) =~= resource_keys());
    }
    Json::Object(fields)
}

/// The items of a resource list.
fn encode_resources(list: &Vec<ManifestResource>) -> (r: Vec<Json>)
    ensures
        resources_of(r@) == Some(list@.map_values(|x: ManifestResource| x@)),
{
    let mut out: Vec<Json> = Vec::new();
    let mut i: usize = 0;
    while i < list.len()
        invariant
            i <= list@.len(),
            out@.len() == i,
            forall|j: int| 0 <= j < i ==> (#[trigger] resource_of(out@[j])) == Some(list@[j]@),
        decreases list.len() - i,
    {
        out.push(encode_resource(&list[i]));
        i = i + 1;
    }
    assert(forall|j: int| 0 <= j < out@.len() ==> (#[trigger] resource_of(out@[j])) is Some);
    assert(Seq::new(out@.len(), |j: int| resource_of(out@[j])->0) =~= list@.map_values(
        |x: ManifestResource| x@,
    ));
    out
}

/// One extra parameter, with its flag written out.
fn encode_prop(p: &ManifestExtraProp) -> (r: Json)
    ensures
        prop_of(r) == Some(p@),
{
    let mut fields: Vec<(String, Json)> = Vec::new();
    fields.push(entry("name", text_value(&p.name)));
    fields.push(entry("isRequired", Json::Bool(p.is_required)));
    fields.push(entry("values", encode_optional_texts(&p.values)));
    proof {
        reveal_strlit("name");
        reveal_strlit("isRequired");
        reveal_strlit("values");
        assert("name"@.len() == 4 && "isRequired"@.len() == 10 && "values"@.len() == 6);
        lemma_lookup_at(fields@, 0);
        lemma_lookup_at(fields@, 1);
        lemma_lookup_at(fields@, 2);
    }
    Json::Object(fields)
}

/// The items of a list of extra parameters.
fn encode_props(list: &Vec<ManifestExtraProp>) -> (r: Vec<Json>)
    ensures
        props_of(r@) == Some(list@.map_values(|p: ManifestExtraProp| p@)),
{
    let mut out: Vec<Json> = Vec::new();
    let mut i: usize = 0;
    while i < list.len()
        invariant
            i <= list@.len(),
            out@.len() == i,
            forall|j: int| 0 <= j < i ==> (#[trigger] prop_of(out@[j])) == Some(list@[j]@),
        decreases list.len() - i,
    {
        out.push(encode_prop(&list[i]));
        i = i + 1;
    }
    assert(forall|j: int| 0 <= j < out@.len() ==> (#[trigger] prop_of(out@[j])) is Some);
    assert(Seq::new(out@.len(), |j: int| prop_of(out@[j])->0) =~= list@.map_values(
        |p: ManifestExtraProp| p@,
    ));
    out
}

/// The keys of an encoded catalog, in the order they are written: the
/// extra parameters under the keys of their notation.
pub open spec fn catalog_keys(extra: ExtraView) -> Seq<Seq<char>> {
    match extra {
        ExtraView::Full { .. } => seq!["type"@, "id"@, "name"@, "extra"@],
        ExtraView::Simple { .. } => seq!["type"@, "id"@, "name"@, "extraRequired"@, "extraSupported"@],
    }
}

/// A catalog, every field present (an absent name as null), with its extra
/// parameters in the notation it was given in, which reads back as the
/// same catalog.
pub fn encode_catalog(c: &ManifestCatalog) -> (r: Json)
    ensures
        catalog_of(r) == Some(c@),
        r matches Json::Object(o) && o@.map_values(|e: (String, Json)| e.0@) == catalog_keys(c@.extra)
            && null_when_absent(c.name, lookup(o@, "name"@)),
{
    let mut fields: Vec<(String, Json)> = Vec::new();
    fields.push(entry("type", text_value(&c.content_type)));
    fields.push(entry("id", text_value(&c.id)));
    fields.push(entry("name", encode_optional_text(&c.name)));
    proof {
        reveal_strlit("type");
        reveal_strlit("id");
        reveal_strlit("name");
        reveal_strlit("extra");
        reveal_strlit("extraRequired");
        reveal_strlit("extraSupported");
        assert("type"@.len() == 4 && "id"@.len() == 2 && "name"@.len() == 4 && "extra"@.len() == 5);
        assert("extraRequired"@.len() == 13 && "extraSupported"@.len() == 14);
        assert("type"@[0] != "name"@[0]);
    }
    match &c.extra {
        ManifestExtra::Full { props } => {
            fields.push(entry("extra", Json::Array(encode_props(props))));
            proof {
                lemma_lookup_at(fields@, 3);
                assert(fields@.map_values(|e: (String, Json)| e.0@) =~= catalog_keys(c@.extra));
            }
        },
        ManifestExtra::Simple { required, supported } => {
            fields.push(entry("extraRequired", Json::Array(encode_texts(required))));
            fields.push(entry("extraSupported", Json::Array(encode_texts(supported))));
            proof {
                lemma_lookup_at(fields@, 3);
                lemma_lookup_at(fields@, 4);
                lemma_lookup_absent(fields@, "extra"@);
                assert(fields@.map_values(|e: (String, Json)| e.0@) =~= catalog_keys(c@.extra));
            }
        },
    }
    proof {
        lemma_lookup_at(fields@, 0);
        lemma_lookup_at(fields@, 1);
        lemma_lookup_at(fields@, 2);
    }
    Json::Object(fields)
}

/// The items of a catalog list.
fn encode_catalogs(list: &Vec<ManifestCatalog>) -> (r: Vec<Json>)
    ensures
        catalogs_of(r@) == Some(list@.map_values(|c: ManifestCatalog| c@)),
{
    let mut out: Vec<Json> = Vec::new();
    let mut i: usize = 0;
    while i < list.len()
        invariant
            i <= list@.len(),
            out@.len() == i,
            forall|j: int| 0 <= j < i ==> (#[trigger] catalog_of(out@[j])) == Some(list@[j]@),
        decreases list.len() - i,
    {
        out.push(encode_catalog(&list[i]));
        i = i + 1;
    }
    assert(forall|j: int| 0 <= j < out@.len() ==> (#[trigger] catalog_of(out@[j])) is Some);
    assert(Seq::new(out@.len(), |j: int| catalog_of(out@[j])->0) =~= list@.map_values(
        |c: ManifestCatalog| c@,
    ));
    out
}

/// The keys of an encoded manifest, in the order they are written.
pub open spec fn manifest_keys() -> Seq<Seq<char>> {
    seq![
        "id"@,
        "version"@,
        "name"@,
        "description"@,
        "logo"@,
        "background"@,
        "types"@,
        "resources"@,
        "idPrefixes"@,
        "catalogs"@,
        "behaviorHints"@,
    ]
}

/// The value written for a field that may be absent: null exactly when it is.
pub open spec fn null_when_absent<T>(field: Option<T>, value: Option<Json>) -> bool {
    field is None <==> value == Some(Json::Null)
}

/// Writes a manifest as a document, every field present (absent ones as
/// null) and each resource in the verbose notation. Reading the document
/// back gives the same manifest.
pub fn encode_manifest(m: &Manifest) -> (r: Json)
    ensures
        manifest_of(r) == Some(m@),
        r matches Json::Object(o) && o@.map_values(|e: (String, Json)| e.0@) == manifest_keys()
            && null_when_absent(m.description, lookup(o@, "description"@))
            && null_when_absent(m.logo, lookup(o@, "logo"@))
            && null_when_absent(m.background, lookup(o@, "background"@))
            && null_when_absent(m.types, lookup(o@, "types"@))
            && null_when_absent(m.id_prefixes, lookup(o@, "idPrefixes"@)),
{
    let mut fields: Vec<(String, Json)> = Vec::new();
    fields.push(entry("id", text_value(&m.id)));
    fields.push(entry("version", Json::Str(m.version.render())));
    fields.push(entry("name", text_value(&m.name)));
    fields.push(entry("description", encode_optional_text(&m.description)));
    fields.push(entry("logo", encode_optional_text(&m.logo)));
    fields.push(entry("background", encode_optional_text(&m.background)));
    fields.push(entry("types", encode_optional_texts(&m.types)));
    fields.push(entry("resources", Json::Array(encode_resources(&m.resources))));
    fields.push(entry("idPrefixes", encode_optional_texts(&m.id_prefixes)));
    fields.push(entry("catalogs", Json::Array(encode_catalogs(&m.catalogs))));
    fields.push(entry("behaviorHints", Json::Object(Vec::new())));
    proof {
        reveal_strlit("id");
        reveal_strlit("version");
        reveal_strlit("name");
        reveal_strlit("description");
        reveal_strlit("logo");
        reveal_strlit("background");
        reveal_strlit("types");
        reveal_strlit("resources");
        reveal_strlit("idPrefixes");
        reveal_strlit("catalogs");
        reveal_strlit("behaviorHints");
        assert("id"@.len() == 2 && "version"@.len() == 7 && "name"@.len() == 4);
        assert("description"@.len() == 11 && "logo"@.len() == 4 && "background"@.len() == 10);
        assert("types"@.len() == 5 && "resources"@.len() == 9 && "idPrefixes"@.len() == 10);
        assert("catalogs"@.len() == 8);
        assert("name"@[0] != "logo"@[0] && "background"@[0] != "idPrefixes"@[0]);
        lemma_lookup_at(fields@, 0);
        lemma_lookup_at(fields@, 1);
        lemma_lookup_at(fields@, 2);
        lemma_lookup_at(fields@, 3);
        lemma_lookup_at(fields@, 4);
        lemma_lookup_at(fields@, 5);
        lemma_lookup_at(fields@, 6);
        lemma_lookup_at(fields@, 7);
        lemma_lookup_at(fields@, 8);
        lemma_lookup_at(fields@, 9);
        assert(fields@.map_values(|e: (String, Json)| e.0@) =~= manifest_keys());
    }
    Json::Object(fields)
}

/// A bare name reads as the object that holds that name and nothing else.
pub proof fn lemma_short_notation(name: String, obj: Vec<(String, Json)>)
    requires
        obj@.len() == 1,
        obj@[0].0@ == "name"@,
        obj@[0].1 == Json::Str(name),
    ensures
        resource_of(Json::Str(name)) == resource_of(Json::Object(obj)),
        resource_of(Json::Str(name)) is Some,
{
    reveal_strlit("name");
    reveal_strlit("types");
    reveal_strlit("idPrefixes");
    assert("name"@.len() == 4 && "types"@.len() == 5 && "idPrefixes"@.len() == 10);
    lemma_lookup_at(obj@, 0);
    lemma_lookup_absent(obj@, "types"@);
    lemma_lookup_absent(obj@, "idPrefixes"@);
}

} // verus!

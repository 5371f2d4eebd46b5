use vstd::prelude::*;

use crate::json::{is_text_prefix, same_text, starts_with_text};
use crate::version::{Version, VersionParts};

verus! {

/// A list of texts, as characters.
pub type Texts = Seq<Seq<char>>;

/// One resource kind that an addon serves, narrowed by content type and id
/// prefix where those are given.
#[derive(Debug, Clone, PartialEq)]
pub struct ManifestResource {
    pub name: String,
    pub types: Option<Vec<String>>,
    pub id_prefixes: Option<Vec<String>>,
}

/// A resource declaration as plain values.
pub struct ResourceView {
    pub name: Seq<char>,
    pub types: Option<Texts>,
    pub id_prefixes: Option<Texts>,
}

impl View for ManifestResource {
    type V = ResourceView;

    open spec fn view(&self) -> ResourceView {
        ResourceView {
            name: self.name@,
            types: self.types.deep_view(),
            id_prefixes: self.id_prefixes.deep_view(),
        }
    }
}

/// One extra parameter that a catalog accepts (the notation with one entry
/// per parameter). `values` is advisory: matching does not read it.
#[derive(Debug, Clone, PartialEq)]
pub struct ManifestExtraProp {
    pub name: String,
    pub is_required: bool,
    pub values: Option<Vec<String>>,
}

/// An extra parameter as plain values.
pub struct ExtraPropView {
    pub name: Seq<char>,
    pub is_required: bool,
    pub values: Option<Texts>,
}

impl View for ManifestExtraProp {
    type V = ExtraPropView;

    open spec fn view(&self) -> ExtraPropView {
        ExtraPropView { name: self.name@, is_required: self.is_required, values: self.values.deep_view() }
    }
}

/// The extra parameters of a catalog, in either notation.
#[derive(Debug, Clone, PartialEq)]
pub enum ManifestExtra {
    Full { props: Vec<ManifestExtraProp> },
    Simple { required: Vec<String>, supported: Vec<String> },
}

/// The extra parameters of a catalog as plain values.
pub enum ExtraView {
    Full { props: Seq<ExtraPropView> },
    Simple { required: Texts, supported: Texts },
}

impl View for ManifestExtra {
    type V = ExtraView;

    open spec fn view(&self) -> ExtraView {
        match self {
            ManifestExtra::Full { props } => ExtraView::Full {
                props: props@.map_values(|p: ManifestExtraProp| p@),
            },
            ManifestExtra::Simple { required, supported } => ExtraView::Simple {
                required: required.deep_view(),
                supported: supported.deep_view(),
            },
        }
    }
}

/// One catalog that an addon offers.
#[derive(Debug, Clone, PartialEq)]
pub struct ManifestCatalog {
    pub content_type: String,
    pub id: String,
    pub name: Option<String>,
    pub extra: ManifestExtra,
}

/// A catalog as plain values.
pub struct CatalogView {
    pub content_type: Seq<char>,
    pub id: Seq<char>,
    pub name: Option<Seq<char>>,
    pub extra: ExtraView,
}

impl View for ManifestCatalog {
    type V = CatalogView;

    open spec fn view(&self) -> CatalogView {
        CatalogView {
            content_type: self.content_type@,
            id: self.id@,
            name: self.name.deep_view(),
            extra: self.extra@,
        }
    }
}

/// The capability document of an addon.
#[derive(Debug, Clone, PartialEq)]
pub struct Manifest {
    pub id: String,
    pub version: Version,
    pub name: String,
    pub description: Option<String>,
    pub logo: Option<String>,
    pub background: Option<String>,
    pub resources: Vec<ManifestResource>,
    pub types: Option<Vec<String>>,
    pub id_prefixes: Option<Vec<String>>,
    pub catalogs: Vec<ManifestCatalog>,
}

/// A manifest as plain values.
pub struct ManifestView {
    pub id: Seq<char>,
    pub version: VersionParts,
    pub name: Seq<char>,
    pub description: Option<Seq<char>>,
    pub logo: Option<Seq<char>>,
    pub background: Option<Seq<char>>,
    pub resources: Seq<ResourceView>,
    pub types: Option<Texts>,
    pub id_prefixes: Option<Texts>,
    pub catalogs: Seq<CatalogView>,
}

impl View for Manifest {
    type V = ManifestView;

    open spec fn view(&self) -> ManifestView {
        ManifestView {
            id: self.id@,
            version: self.version@,
            name: self.name@,
            description: self.description.deep_view(),
            logo: self.logo.deep_view(),
            background: self.background.deep_view(),
            resources: self.resources@.map_values(|r: ManifestResource| r@),
            types: self.types.deep_view(),
            id_prefixes: self.id_prefixes.deep_view(),
            catalogs: self.catalogs@.map_values(|c: ManifestCatalog| c@),
        }
    }
}

/// A request for one resource of one content type and id, with its extra
/// parameters as key and value.
#[derive(Debug, Clone, PartialEq)]
pub struct ResourceRef {
    pub resource: String,
    pub content_type: String,
    pub id: String,
    pub extra: Vec<(String, String)>,
}

/// A request as plain values.
pub struct RequestView {
    pub resource: Seq<char>,
    pub content_type: Seq<char>,
    pub id: Seq<char>,
    pub extra: Seq<(Seq<char>, Seq<char>)>,
}

impl View for ResourceRef {
    type V = RequestView;

    open spec fn view(&self) -> RequestView {
        RequestView {
            resource: self.resource@,
            content_type: self.content_type@,
            id: self.id@,
            extra: self.extra.deep_view(),
        }
    }
}

/// Some requested extra parameter has the key `k`.
pub open spec fn has_key(extra: Seq<(Seq<char>, Seq<char>)>, k: Seq<char>) -> bool {
    exists|i: int| 0 <= i < extra.len() && (#[trigger] extra[i]).0 == k
}

/// Some parameter of the list is named `k`.
pub open spec fn has_prop(props: Seq<ExtraPropView>, k: Seq<char>) -> bool {
    exists|j: int| 0 <= j < props.len() && (#[trigger] props[j]).name == k
}

/// Modern notation: each requested key names a parameter, and each required
/// parameter is requested.
pub open spec fn full_supported(props: Seq<ExtraPropView>, extra: Seq<(Seq<char>, Seq<char>)>) -> bool {
    &&& forall|i: int| 0 <= i < extra.len() ==> has_prop(props, #[trigger] extra[i].0)
    &&& forall|j: int|
        0 <= j < props.len() && (#[trigger] props[j]).is_required ==> has_key(extra, props[j].name)
}

/// Legacy notation: each requested key is in `supported`, and each key of
/// `required` is requested.
pub open spec fn simple_supported(
    required: Texts,
    supported: Texts,
    extra: Seq<(Seq<char>, Seq<char>)>,
) -> bool {
    &&& forall|i: int| 0 <= i < extra.len() ==> supported.contains(#[trigger] extra[i].0)
    &&& forall|j: int| 0 <= j < required.len() ==> has_key(extra, #[trigger] required[j])
}

/// Every requested key is accepted, and every required key is requested.
pub open spec fn extra_supported(spec: ExtraView, extra: Seq<(Seq<char>, Seq<char>)>) -> bool {
    match spec {
        ExtraView::Full { props } => full_supported(props, extra),
        ExtraView::Simple { required, supported } => simple_supported(required, supported, extra),
    }
}

/// The first resource declared under `name`.
pub open spec fn find_resource(rs: Seq<ResourceView>, name: Seq<char>) -> Option<ResourceView>
    decreases rs.len(),
{
    if rs.len() == 0 {
        None
    } else if rs[0].name == name {
        Some(rs[0])
    } else {
        find_resource(rs.drop_first(), name)
    }
}

/// A list given on the resource wins over the manifest's default.
pub open spec fn or_default(own: Option<Texts>, default: Option<Texts>) -> Option<Texts> {
    if own is Some {
        own
    } else {
        default
    }
}

/// The type check: no list anywhere means no type is served.
pub open spec fn type_matches(types: Option<Texts>, content_type: Seq<char>) -> bool {
    match types {
        None => false,
        Some(ts) => ts.contains(content_type),
    }
}

/// The id check: no list anywhere means every id is served.
pub open spec fn id_matches(prefixes: Option<Texts>, id: Seq<char>) -> bool {
    match prefixes {
        None => true,
        Some(ps) => exists|i: int| 0 <= i < ps.len() && is_text_prefix(#[trigger] ps[i], id),
    }
}

/// Some catalog has the requested type and id and accepts the extra keys.
pub open spec fn catalog_matches(catalogs: Seq<CatalogView>, req: RequestView) -> bool {
    exists|i: int|
        0 <= i < catalogs.len() && (#[trigger] catalogs[i]).content_type == req.content_type
            && catalogs[i].id == req.id && extra_supported(catalogs[i].extra, req.extra)
}

/// Whether an addon with manifest `m` can answer `req`.
pub open spec fn supports(m: ManifestView, req: RequestView) -> bool {
    if req.resource == "catalog"@ {
        catalog_matches(m.catalogs, req)
    } else {
        match find_resource(m.resources, req.resource) {
            None => false,
            Some(res) => type_matches(or_default(res.types, m.types), req.content_type)
                && id_matches(or_default(res.id_prefixes, m.id_prefixes), req.id),
        }
    }
}

/// Whether some requested extra parameter has the key `k`.
fn key_requested(extra: &[(String, String)], k: &String) -> (r: bool)
    ensures
        r == has_key(extra.deep_view(), k@),
{
    let mut i: usize = 0;
    while i < extra.len()
        invariant
            i <= extra@.len(),
            forall|j: int| 0 <= j < i ==> (#[trigger] extra.deep_view()[j]).0 != k@,
        decreases extra.len() - i,
    {
        if extra[i].0 == *k {
            assert(extra.deep_view()[i as int].0 == k@);
            return true;
        }
        i = i + 1;
    }
    false
}

/// Whether some parameter of the list is named `k`.
fn prop_named(props: &Vec<ManifestExtraProp>, k: &String) -> (r: bool)
    ensures
        r == has_prop(props@.map_values(|p: ManifestExtraProp| p@), k@),
{
    let ghost ps = props@.map_values(|p: ManifestExtraProp| p@);
    let mut i: usize = 0;
    while i < props.len()
        invariant
            i <= props@.len(),
            ps == props@.map_values(|p: ManifestExtraProp| p@),
            forall|j: int| 0 <= j < i ==> (#[trigger] ps[j]).name != k@,
        decreases props.len() - i,
    {
        if props[i].name == *k {
            assert(ps[i as int].name == k@);
            return true;
        }
        i = i + 1;
    }
    false
}

/// Whether `k` is one of the texts of `list`.
fn contains_text(list: &Vec<String>, k: &String) -> (r: bool)
    ensures
        r == list.deep_view().contains(k@),
{
    let mut i: usize = 0;
    while i < list.len()
        invariant
            i <= list@.len(),
            forall|j: int| 0 <= j < i ==> (#[trigger] list.deep_view()[j]) != k@,
        decreases list.len() - i,
    {
        if list[i] == *k {
            assert(list.deep_view()[i as int] == k@);
            return true;
        }
        i = i + 1;
    }
    false
}

/// Whether `id` starts with some text of `prefixes`.
fn has_prefix_in(prefixes: &Vec<String>, id: &String) -> (r: bool)
    ensures
        r == id_matches(Some(prefixes.deep_view()), id@),
{
    let ghost ps = prefixes.deep_view();
    let mut i: usize = 0;
    while i < prefixes.len()
        invariant
            i <= prefixes@.len(),
            ps == prefixes.deep_view(),
            forall|j: int| 0 <= j < i ==> !is_text_prefix(#[trigger] ps[j], id@),
        decreases prefixes.len() - i,
    {
        assert(ps[i as int] == prefixes@[i as int]@);
        if starts_with_text(id.as_str(), prefixes[i].as_str()) {
            assert(is_text_prefix(ps[i as int], id@));
            assert(Some(ps) matches Some(q) && q == ps);
            return true;
        }
        i = i + 1;
    }
    false
}

/// `full_supported` over a list of parameters.
fn full_supports(props: &Vec<ManifestExtraProp>, extra: &[(String, String)]) -> (r: bool)
    ensures
        r == full_supported(props@.map_values(|p: ManifestExtraProp| p@), extra.deep_view()),
{
    let ghost req = extra.deep_view();
    let ghost ps = props@.map_values(|p: ManifestExtraProp| p@);
    let mut i: usize = 0;
    while i < extra.len()
        invariant
            i <= extra@.len(),
            req == extra.deep_view(),
            ps == props@.map_values(|p: ManifestExtraProp| p@),
            forall|j: int| 0 <= j < i ==> has_prop(ps, #[trigger] req[j].0),
        decreases extra.len() - i,
    {
        assert(req[i as int].0 == extra@[i as int].0@);
        if !prop_named(props, &extra[i].0) {
            assert(!has_prop(ps, req[i as int].0));
            assert(!(forall|a: int| 0 <= a < req.len() ==> has_prop(ps, #[trigger] req[a].0)));
            return false;
        }
        i = i + 1;
    }
    let mut j: usize = 0;
    while j < props.len()
        invariant
            j <= props@.len(),
            req == extra.deep_view(),
            ps == props@.map_values(|p: ManifestExtraProp| p@),
            forall|a: int| 0 <= a < req.len() ==> has_prop(ps, #[trigger] req[a].0),
            forall|b: int|
                0 <= b < j && (#[trigger] ps[b]).is_required ==> has_key(req, ps[b].name),
        decreases props.len() - j,
    {
        assert(ps[j as int] == props@[j as int]@);
        if props[j].is_required && !key_requested(extra, &props[j].name) {
            assert(ps[j as int].is_required && !has_key(req, ps[j as int].name));
            assert(!(forall|b: int|
                0 <= b < ps.len() && (#[trigger] ps[b]).is_required ==> has_key(req, ps[b].name)));
            return false;
        }
        j = j + 1;
    }
    true
}

/// `simple_supported` over the two lists of the legacy notation.
fn simple_supports(required: &Vec<String>, supported: &Vec<String>, extra: &[(String, String)]) -> (r: bool)
    ensures
        r == simple_supported(required.deep_view(), supported.deep_view(), extra.deep_view()),
{
    let ghost req = extra.deep_view();
    let mut i: usize = 0;
    while i < extra.len()
        invariant
            i <= extra@.len(),
            req == extra.deep_view(),
            forall|j: int| 0 <= j < i ==> supported.deep_view().contains(#[trigger] req[j].0),
        decreases extra.len() - i,
    {
        assert(req[i as int].0 == extra@[i as int].0@);
        if !contains_text(supported, &extra[i].0) {
            assert(!(forall|a: int| 0 <= a < req.len() ==> supported.deep_view().contains(#[trigger] req[a].0)));
            return false;
        }
        i = i + 1;
    }
    let mut j: usize = 0;
    while j < required.len()
        invariant
            j <= required@.len(),
            req == extra.deep_view(),
            forall|a: int| 0 <= a < req.len() ==> supported.deep_view().contains(#[trigger] req[a].0),
            forall|b: int| 0 <= b < j ==> has_key(req, #[trigger] required.deep_view()[b]),
        decreases required.len() - j,
    {
        assert(required.deep_view()[j as int] == required@[j as int]@);
        if !key_requested(extra, &required[j]) {
            assert(!(forall|b: int| 0 <= b < required.deep_view().len() ==> has_key(req, #[trigger] required.deep_view()[b])));
            return false;
        }
        j = j + 1;
    }
    true
}

impl ManifestExtra {
    /// Every requested key is accepted, and every required key is requested.
    pub fn supports(&self, extra: &[(String, String)]) -> (r: bool)
        ensures
            r == extra_supported(self@, extra.deep_view()),
    {
        match self {
            ManifestExtra::Full { props } => full_supports(props, extra),
            ManifestExtra::Simple { required, supported } => simple_supports(required, supported, extra),
        }
    }
}

impl ManifestCatalog {
    /// Whether this catalog accepts the keys of `extra`.
    pub fn is_extra_supported(&self, extra: &[(String, String)]) -> (r: bool)
        ensures
            r == extra_supported(self@.extra, extra.deep_view()),
    {
        self.extra.supports(extra)
    }
}

/// The first resource of the list declared under `name`.
fn find_declared<'a>(resources: &'a Vec<ManifestResource>, name: &String) -> (r: Option<&'a ManifestResource>)
    ensures
        match r {
            Some(res) => find_resource(resources@.map_values(|x: ManifestResource| x@), name@) == Some(res@),
            None => find_resource(resources@.map_values(|x: ManifestResource| x@), name@) is None,
        },
{
    let ghost rs = resources@.map_values(|x: ManifestResource| x@);
    let mut i: usize = 0;
    assert(rs =~= rs.subrange(0, rs.len() as int));
    while i < resources.len()
        invariant
            i <= resources@.len(),
            rs == resources@.map_values(|x: ManifestResource| x@),
            find_resource(rs, name@) == find_resource(rs.subrange(i as int, rs.len() as int), name@),
        decreases resources.len() - i,
    {
        let ghost rest = rs.subrange(i as int, rs.len() as int);
        assert(rest.drop_first() =~= rs.subrange(i + 1, rs.len() as int));
        assert(rest[0] == resources@[i as int]@);
        if resources[i].name == *name {
            return Some(&resources[i]);
        }
        i = i + 1;
    }
    assert(rs.subrange(i as int, rs.len() as int).len() == 0);
    None
}

/// The list of the resource where it has one, else the manifest's default.
fn own_or_default<'a>(own: &'a Option<Vec<String>>, default: &'a Option<Vec<String>>) -> (r: &'a Option<Vec<String>>)
    ensures
        r.deep_view() == or_default(own.deep_view(), default.deep_view()),
{
    match own {
        Some(_) => own,
        None => default,
    }
}

impl Manifest {
    /// Whether the addon that publishes this manifest can answer `req`.
    pub fn is_supported(&self, req: &ResourceRef) -> (r: bool)
        ensures
            r == supports(self@, req@),
    {
        if same_text(req.resource.as_str(), "catalog") {
            let ghost cs = self.catalogs@.map_values(|c: ManifestCatalog| c@);
            let extra = req.extra.as_slice();
            assert(extra.deep_view() =~= req@.extra);
            let mut i: usize = 0;
            while i < self.catalogs.len()
                invariant
                    i <= self.catalogs@.len(),
                    cs == self.catalogs@.map_values(|c: ManifestCatalog| c@),
                    extra.deep_view() == req@.extra,
                    req@.resource == "catalog"@,
                    forall|j: int|
                        0 <= j < i ==> !((#[trigger] cs[j]).content_type == req@.content_type
                            && cs[j].id == req@.id && extra_supported(cs[j].extra, req@.extra)),
                decreases self.catalogs.len() - i,
            {
                let c = &self.catalogs[i];
                assert(cs[i as int] == c@);
                if c.content_type == req.content_type && c.id == req.id
                    && c.is_extra_supported(extra) {
                    assert(catalog_matches(cs, req@));
                    return true;
                }
                i = i + 1;
            }
            return false;
        }
        match find_declared(&self.resources, &req.resource) {
            None => false,
            Some(res) => {
                let type_ok = match own_or_default(&res.types, &self.types) {
                    None => false,
                    Some(types) => contains_text(types, &req.content_type),
                };
                let id_ok = match own_or_default(&res.id_prefixes, &self.id_prefixes) {
                    None => true,
                    Some(prefixes) => has_prefix_in(prefixes, &req.id),
                };
                type_ok && id_ok
            },
        }
    }
}

/// A resource with no list of types, in a manifest with no default list,
/// serves no request: the type check is closed by default.
pub proof fn lemma_types_closed_by_default(m: ManifestView, req: RequestView)
    requires
        req.resource != "catalog"@,
        find_resource(m.resources, req.resource) matches Some(res) && res.types is None,
        m.types is None,
    ensures
        !supports(m, req),
{
}

/// A resource with no list of id prefixes, in a manifest with no default
/// list, accepts every id: whether it serves a request depends on the type
/// alone.
pub proof fn lemma_ids_open_by_default(m: ManifestView, req: RequestView)
    requires
        req.resource != "catalog"@,
        find_resource(m.resources, req.resource) matches Some(res) && res.id_prefixes is None,
        m.id_prefixes is None,
    ensures
        supports(m, req) == type_matches(
            or_default(find_resource(m.resources, req.resource)->0.types, m.types),
            req.content_type,
        ),
{
}

/// In the modern notation, a required parameter that the request lacks
/// fails the match, whatever the other keys are.
pub proof fn lemma_required_prop_missing(props: Seq<ExtraPropView>, extra: Seq<(Seq<char>, Seq<char>)>, j: int)
    requires
        0 <= j < props.len(),
        props[j].is_required,
        !has_key(extra, props[j].name),
    ensures
        !extra_supported(ExtraView::Full { props }, extra),
{
}

/// The predicate reads nothing but the manifest and the request: the same
/// inputs give the same answer.
pub proof fn lemma_supports_deterministic(m1: ManifestView, req1: RequestView, m2: ManifestView, req2: RequestView)
    requires
        m1 == m2,
        req1 == req2,
    ensures
        supports(m1, req1) == supports(m2, req2),
{
}

} // verus!

use addon_manifest::{
    decode_manifest, decode_resource, decode_resources, encode_catalog, encode_manifest,
    encode_resource, Json, Manifest, ManifestCatalog, ManifestExtra, ManifestExtraProp,
    ManifestResource, ResourceRef, Version,
};

fn text(s: &str) -> Json {
    Json::Str(s.to_owned())
}

fn texts(items: &[&str]) -> Json {
    Json::Array(items.iter().map(|s| text(s)).collect())
}

fn object(fields: Vec<(&str, Json)>) -> Json {
    Json::Object(fields.into_iter().map(|(k, v)| (k.to_owned(), v)).collect())
}

fn strings(items: &[&str]) -> Vec<String> {
    items.iter().map(|s| s.to_string()).collect()
}

fn request(resource: &str, content_type: &str, id: &str, extra: &[(&str, &str)]) -> ResourceRef {
    ResourceRef {
        resource: resource.to_owned(),
        content_type: content_type.to_owned(),
        id: id.to_owned(),
        extra: extra.iter().map(|(k, v)| (k.to_string(), v.to_string())).collect(),
    }
}

fn base_manifest(resources: Json, extra_fields: Vec<(&str, Json)>) -> Json {
    let mut fields = vec![
        ("id", text("org.example")),
        ("version", text("0.0.1")),
        ("name", text("example")),
        ("resources", resources),
    ];
    fields.extend(extra_fields);
    object(fields)
}

fn manifest(resources: Json, extra_fields: Vec<(&str, Json)>) -> Manifest {
    decode_manifest(&base_manifest(resources, extra_fields)).unwrap()
}

#[test]
fn bare_name_decodes_as_object_with_name() {
    let short = decode_resources(&vec![text("stream")]).unwrap();
    let long = decode_resources(&vec![object(vec![("name", text("stream"))])]).unwrap();
    assert_eq!(short, long);
    assert_eq!(
        short,
        vec![ManifestResource { name: "stream".to_owned(), types: None, id_prefixes: None }]
    );
}

#[test]
fn mixed_resource_notations_in_one_list() {
    let list = vec![
        text("stream"),
        object(vec![
            ("name", text("meta")),
            ("types", texts(&["movie"])),
            ("idPrefixes", texts(&["tt"])),
        ]),
    ];
    let rs = decode_resources(&list).unwrap();
    assert_eq!(rs[0].name, "stream");
    assert_eq!(rs[1].name, "meta");
    assert_eq!(rs[1].types, Some(strings(&["movie"])));
    assert_eq!(rs[1].id_prefixes, Some(strings(&["tt"])));
}

#[test]
fn resource_entry_of_other_shape_is_refused() {
    assert_eq!(decode_resource(&Json::Number("5".to_owned())), None);
    assert_eq!(decode_resource(&Json::Null), None);
    assert_eq!(decode_resource(&texts(&["stream"])), None);
    assert_eq!(decode_resources(&vec![text("stream"), Json::Null]), Err(1));
    let err = decode_manifest(&base_manifest(
        Json::Array(vec![text("stream"), Json::Number("7".to_owned())]),
        vec![],
    ))
    .unwrap_err();
    assert_eq!(err.field, "resources");
    assert_eq!(err.position, Some(1));
}

#[test]
fn malformed_version_is_refused() {
    let doc = object(vec![
        ("id", text("x")),
        ("version", text("1.0")),
        ("name", text("x")),
        ("resources", Json::Array(vec![])),
    ]);
    let err = decode_manifest(&doc).unwrap_err();
    assert_eq!(err.field, "version");
}

#[test]
fn missing_resources_is_refused() {
    let doc = object(vec![("id", text("x")), ("version", text("1.0.0")), ("name", text("x"))]);
    assert_eq!(decode_manifest(&doc).unwrap_err().field, "resources");
}

#[test]
fn document_that_is_not_an_object_is_refused() {
    assert!(decode_manifest(&text("manifest")).is_err());
}

#[test]
fn absent_optional_fields_take_their_defaults() {
    let m = manifest(Json::Array(vec![]), vec![("description", Json::Null)]);
    assert_eq!(m.id, "org.example");
    assert_eq!(m.description, None);
    assert_eq!(m.logo, None);
    assert_eq!(m.types, None);
    assert_eq!(m.id_prefixes, None);
    assert!(m.catalogs.is_empty());
    assert_eq!(m.version.major(), 0);
    assert_eq!(m.version.patch(), 1);
}

#[test]
fn catalog_without_extra_keys_is_simple_and_empty() {
    let m = manifest(
        Json::Array(vec![]),
        vec![("catalogs", Json::Array(vec![object(vec![("type", text("movie")), ("id", text("top"))])]))],
    );
    assert_eq!(
        m.catalogs[0].extra,
        ManifestExtra::Simple { required: vec![], supported: vec![] }
    );
    assert_eq!(m.catalogs[0].name, None);
}

#[test]
fn modern_extra_notation_decodes_as_full() {
    let m = manifest(
        Json::Array(vec![]),
        vec![(
            "catalogs",
            Json::Array(vec![object(vec![
                ("type", text("movie")),
                ("id", text("top")),
                ("name", text("Top")),
                (
                    "extra",
                    Json::Array(vec![object(vec![
                        ("name", text("genre")),
                        ("isRequired", Json::Bool(false)),
                        ("values", texts(&["a", "b"])),
                    ])]),
                ),
            ])]),
        )],
    );
    assert_eq!(m.catalogs[0].name, Some("Top".to_owned()));
    assert_eq!(
        m.catalogs[0].extra,
        ManifestExtra::Full {
            props: vec![ManifestExtraProp {
                name: "genre".to_owned(),
                is_required: false,
                values: Some(strings(&["a", "b"])),
            }],
        }
    );
}

#[test]
fn cinemeta_style_matching() {
    let m = manifest(
        Json::Array(vec![object(vec![("name", text("meta")), ("types", texts(&["movie"]))])]),
        vec![],
    );
    assert!(m.is_supported(&request("meta", "movie", "tt0234", &[])));
    assert!(!m.is_supported(&request("meta", "somethingElse", "tt0234", &[])));
    assert!(!m.is_supported(&request("stream", "movie", "tt0234", &[])));
}

#[test]
fn type_check_is_closed_by_default() {
    let m = manifest(Json::Array(vec![text("stream")]), vec![]);
    assert!(!m.is_supported(&request("stream", "movie", "tt1", &[])));
    assert!(!m.is_supported(&request("stream", "series", "", &[])));
}

#[test]
fn manifest_types_are_the_default_for_resources() {
    let m = manifest(Json::Array(vec![text("stream")]), vec![("types", texts(&["series"]))]);
    assert!(m.is_supported(&request("stream", "series", "x", &[])));
    assert!(!m.is_supported(&request("stream", "movie", "x", &[])));
}

#[test]
fn id_check_is_open_by_default() {
    let m = manifest(Json::Array(vec![text("stream")]), vec![("types", texts(&["movie"]))]);
    assert!(m.is_supported(&request("stream", "movie", "tt1", &[])));
    assert!(m.is_supported(&request("stream", "movie", "kitsu:1", &[])));
    assert!(m.is_supported(&request("stream", "movie", "", &[])));
}

#[test]
fn resource_prefixes_override_manifest_prefixes() {
    let m = manifest(
        Json::Array(vec![
            object(vec![("name", text("stream")), ("idPrefixes", texts(&["kitsu:"]))]),
            text("meta"),
        ]),
        vec![("types", texts(&["movie"])), ("idPrefixes", texts(&["tt"]))],
    );
    assert!(m.is_supported(&request("stream", "movie", "kitsu:12", &[])));
    assert!(!m.is_supported(&request("stream", "movie", "tt12", &[])));
    assert!(m.is_supported(&request("meta", "movie", "tt12", &[])));
    assert!(!m.is_supported(&request("meta", "movie", "kitsu:12", &[])));
}

fn legacy_catalog_manifest() -> Manifest {
    manifest(
        Json::Array(vec![]),
        vec![(
            "catalogs",
            Json::Array(vec![object(vec![
                ("type", text("movie")),
                ("id", text("top")),
                ("extraRequired", texts(&["genre"])),
                ("extraSupported", texts(&["genre", "year"])),
            ])]),
        )],
    )
}

#[test]
fn legacy_catalog_matching() {
    let m = legacy_catalog_manifest();
    assert!(m.is_supported(&request("catalog", "movie", "top", &[("genre", "x")])));
    assert!(!m.is_supported(&request("catalog", "movie", "top", &[("year", "x")])));
    assert!(!m.is_supported(&request("catalog", "movie", "top", &[("other", "x")])));
    assert!(m.is_supported(&request("catalog", "movie", "top", &[("genre", "x"), ("year", "1")])));
    assert!(!m.is_supported(&request("catalog", "series", "top", &[("genre", "x")])));
    assert!(!m.is_supported(&request("catalog", "movie", "popular", &[("genre", "x")])));
}

#[test]
fn catalog_requests_ignore_resource_lists() {
    let m = legacy_catalog_manifest();
    assert!(m.resources.is_empty());
    assert!(m.is_supported(&request("catalog", "movie", "top", &[("genre", "x"), ("genre", "y")])));
}

fn full_catalog(props: Vec<ManifestExtraProp>) -> ManifestCatalog {
    ManifestCatalog {
        content_type: "movie".to_owned(),
        id: "top".to_owned(),
        name: None,
        extra: ManifestExtra::Full { props },
    }
}

fn prop(name: &str, is_required: bool, values: Option<&[&str]>) -> ManifestExtraProp {
    ManifestExtraProp { name: name.to_owned(), is_required, values: values.map(strings) }
}

fn pairs(items: &[(&str, &str)]) -> Vec<(String, String)> {
    items.iter().map(|(k, v)| (k.to_string(), v.to_string())).collect()
}

#[test]
fn full_notation_required_property_missing() {
    let c = full_catalog(vec![prop("genre", true, None), prop("skip", false, None)]);
    assert!(!c.is_extra_supported(&pairs(&[("skip", "10")])));
    assert!(!c.is_extra_supported(&[]));
    assert!(c.is_extra_supported(&pairs(&[("genre", "a"), ("skip", "10")])));
    assert!(!c.is_extra_supported(&pairs(&[("genre", "a"), ("other", "1")])));
}

#[test]
fn full_notation_does_not_enforce_values() {
    let c = full_catalog(vec![prop("genre", false, Some(&["a", "b"]))]);
    assert!(c.is_extra_supported(&pairs(&[("genre", "zzz")])));
    assert!(c.is_extra_supported(&[]));
}

#[test]
fn simple_notation_with_empty_lists_accepts_only_no_keys() {
    let c = ManifestCatalog {
        content_type: "movie".to_owned(),
        id: "top".to_owned(),
        name: None,
        extra: ManifestExtra::Simple { required: vec![], supported: vec![] },
    };
    assert!(c.is_extra_supported(&[]));
    assert!(!c.is_extra_supported(&pairs(&[("genre", "a")])));
}

#[test]
fn is_supported_twice_gives_the_same_answer() {
    let m = legacy_catalog_manifest();
    let r = request("catalog", "movie", "top", &[("genre", "x")]);
    let first = m.is_supported(&r);
    let second = m.is_supported(&r);
    assert_eq!(first, second);
    let r2 = request("stream", "movie", "tt1", &[]);
    assert_eq!(m.is_supported(&r2), m.is_supported(&r2));
}

fn full_manifest() -> Manifest {
    Manifest {
        id: "org.example".to_owned(),
        version: Version::parse("1.2.3-beta.1+build5").unwrap(),
        name: "Example".to_owned(),
        description: Some("desc".to_owned()),
        logo: None,
        background: Some("bg.png".to_owned()),
        resources: vec![
            ManifestResource { name: "stream".to_owned(), types: None, id_prefixes: None },
            ManifestResource {
                name: "meta".to_owned(),
                types: Some(strings(&["movie", "series"])),
                id_prefixes: Some(strings(&["tt"])),
            },
        ],
        types: Some(strings(&["movie"])),
        id_prefixes: None,
        catalogs: vec![
            full_catalog(vec![prop("genre", true, Some(&["a"])), prop("skip", false, None)]),
            ManifestCatalog {
                content_type: "series".to_owned(),
                id: "new".to_owned(),
                name: Some("New".to_owned()),
                extra: ManifestExtra::Simple {
                    required: strings(&["genre"]),
                    supported: strings(&["genre", "year"]),
                },
            },
        ],
    }
}

#[test]
fn encode_then_decode_gives_the_same_manifest() {
    let m = full_manifest();
    let doc = encode_manifest(&m);
    assert_eq!(decode_manifest(&doc).unwrap(), m);
    let empty = manifest(Json::Array(vec![]), vec![]);
    assert_eq!(decode_manifest(&encode_manifest(&empty)).unwrap(), empty);
}

#[test]
fn encoding_writes_absent_fields_as_null() {
    let m = manifest(Json::Array(vec![]), vec![]);
    let doc = encode_manifest(&m);
    let expected = object(vec![
        ("id", text("org.example")),
        ("version", text("0.0.1")),
        ("name", text("example")),
        ("description", Json::Null),
        ("logo", Json::Null),
        ("background", Json::Null),
        ("types", Json::Null),
        ("resources", Json::Array(vec![])),
        ("idPrefixes", Json::Null),
        ("catalogs", Json::Array(vec![])),
        ("behaviorHints", Json::Object(vec![])),
    ]);
    assert_eq!(doc, expected);
}

#[test]
fn encoded_resource_uses_verbose_notation() {
    let r = ManifestResource { name: "stream".to_owned(), types: None, id_prefixes: None };
    assert_eq!(
        encode_resource(&r),
        object(vec![("name", text("stream")), ("types", Json::Null), ("idPrefixes", Json::Null)])
    );
}

#[test]
fn encoded_catalog_keeps_its_notation() {
    let c = ManifestCatalog {
        content_type: "movie".to_owned(),
        id: "top".to_owned(),
        name: None,
        extra: ManifestExtra::Simple { required: strings(&["genre"]), supported: vec![] },
    };
    assert_eq!(
        encode_catalog(&c),
        object(vec![
            ("type", text("movie")),
            ("id", text("top")),
            ("name", Json::Null),
            ("extraRequired", texts(&["genre"])),
            ("extraSupported", texts(&[])),
        ])
    );
}

#[test]
fn version_parse_and_render() {
    let v = Version::parse("1.2.3-beta.1+build5").unwrap();
    assert_eq!((v.major(), v.minor(), v.patch()), (1, 2, 3));
    assert_eq!(v.pre(), "beta.1");
    assert_eq!(v.build(), "build5");
    assert_eq!(v.render(), "1.2.3-beta.1+build5");
    let plain = Version::parse("0.10.2").unwrap();
    assert_eq!(plain.render(), "0.10.2");
    assert_eq!(plain.pre(), "");
    assert_eq!(plain.build(), "");
    assert_eq!(plain.clone(), plain);
    assert!(Version::parse("1.0.01").is_none());
    assert!(Version::parse("").is_none());
}

#[test]
fn resource_from_str() {
    let r: ManifestResource = "subtitles".parse().unwrap();
    assert_eq!(r, ManifestResource { name: "subtitles".to_owned(), types: None, id_prefixes: None });
}

#[test]
fn decode_error_names_the_first_bad_field() {
    let doc = base_manifest(
        Json::Array(vec![]),
        vec![("logo", Json::Bool(true)), ("catalogs", Json::Null)],
    );
    let err = decode_manifest(&doc).unwrap_err();
    assert_eq!(err.field, "logo");
    assert_eq!(err.position, None);
    let doc = base_manifest(Json::Array(vec![]), vec![("catalogs", Json::Null)]);
    assert_eq!(decode_manifest(&doc).unwrap_err().field, "catalogs");
    let doc = object(vec![("version", text("1.0.0")), ("name", text("x"))]);
    assert_eq!(decode_manifest(&doc).unwrap_err().field, "id");
}

#[test]
fn decode_error_gives_first_bad_catalog_position() {
    let good = object(vec![("type", text("movie")), ("id", text("top"))]);
    let doc = base_manifest(
        Json::Array(vec![]),
        vec![("catalogs", Json::Array(vec![good, Json::Null, text("x")]))],
    );
    let err = decode_manifest(&doc).unwrap_err();
    assert_eq!(err.field, "catalogs");
    assert_eq!(err.position, Some(1));
    let doc = base_manifest(text("stream"), vec![]);
    let err = decode_manifest(&doc).unwrap_err();
    assert_eq!(err.field, "resources");
    assert_eq!(err.position, None);
}

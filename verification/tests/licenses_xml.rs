use cyclonedx_bom::model::{
    Advisory, AttachedText, Bom, Component, Composition, DataClassification, Dependency,
    ExternalReference, License, LicenseChoice, LicenseIdentifier, Licenses, Metadata,
    OrganizationalContact, OrganizationalEntity, Property, Rating, Service, Signature,
    SpecVersion, Target, Tool, VersionSpec, Vulnerability, VulnerabilityAnalysis,
    VulnerabilityCredits, VulnerabilityReference, VulnerabilitySource,
};
use cyclonedx_bom::errors::Error;
use cyclonedx_bom::xml_api::{parse_licenses_xml, write_licenses_xml};

fn example_attached_text() -> AttachedText {
    AttachedText {
        content_type: Some("content type".to_string()),
        encoding: Some("encoding".to_string()),
        content: "content".to_string(),
    }
}

fn example_spdx_license() -> LicenseChoice {
    LicenseChoice::License(License {
        license_identifier: LicenseIdentifier::SpdxId("spdx id".to_string()),
        text: Some(example_attached_text()),
        url: Some("url".to_string()),
    })
}

fn example_named_license() -> LicenseChoice {
    LicenseChoice::License(License {
        license_identifier: LicenseIdentifier::Name("name".to_string()),
        text: Some(example_attached_text()),
        url: Some("url".to_string()),
    })
}

fn example_license_expression() -> String {
    "expression".to_string()
}

#[test]
fn it_should_read_licenses_without_license_choices_correctly() {
    let input = r#"
<licenses>
</licenses>
"#;
    let actual = parse_licenses_xml(input.as_bytes()).expect("should parse");
    let expected = Licenses(vec![]);
    assert_eq!(actual, expected);
}

#[test]
fn it_should_read_xml_full_license_choice_licenses() {
    let input = r#"
<licenses>
  <license>
    <id>spdx id</id>
    <text content-type="content type" encoding="encoding">content</text>
    <url>url</url>
  </license>
  <license>
    <name>name</name>
    <text content-type="content type" encoding="encoding">content</text>
    <url>url</url>
  </license>
</licenses>
"#;
    let actual = parse_licenses_xml(input.as_bytes()).expect("should parse");
    let expected = Licenses(vec![example_spdx_license(), example_named_license()]);
    assert_eq!(actual, expected);
}

#[test]
fn it_should_read_xml_full_license_choice_expressions() {
    let input = r#"
<licenses>
  <expression>expression</expression>
  <expression>expression</expression>
</licenses>
"#;
    let actual = parse_licenses_xml(input.as_bytes()).expect("should parse");
    let expected = Licenses(vec![
        LicenseChoice::Expression(example_license_expression()),
        LicenseChoice::Expression(example_license_expression()),
    ]);
    assert_eq!(actual, expected);
}

#[test]
fn license_with_both_id_and_name_fails_to_parse() {
    let input = r#"
<licenses>
  <license>
    <id>Apache-2.0</id>
    <name>Apache</name>
  </license>
</licenses>
"#;
    let actual = parse_licenses_xml(input.as_bytes());
    assert_eq!(
        actual,
        Err(Error::DuplicateElement { element: "license".to_string() })
    );
}

#[test]
fn license_with_neither_id_nor_name_fails_with_required_field_error() {
    let input = r#"
<licenses>
  <license>
    <url>url</url>
  </license>
</licenses>
"#;
    let actual = parse_licenses_xml(input.as_bytes());
    assert_eq!(
        actual,
        Err(Error::RequiredDataMissing {
            required_field: "id or name".to_string(),
            element: "license".to_string(),
        })
    );
}

#[test]
fn foreign_element_inside_license_is_lax_skipped() {
    let with_foreign = r#"
<licenses xmlns:example="https://example.com">
  <license>
    <id>MIT</id>
    <example:extra><example:inner>x</example:inner></example:extra>
    <url>url</url>
  </license>
</licenses>
"#;
    let without_foreign = r#"
<licenses>
  <license>
    <id>MIT</id>
    <url>url</url>
  </license>
</licenses>
"#;
    let a = parse_licenses_xml(with_foreign.as_bytes()).expect("should parse");
    let b = parse_licenses_xml(without_foreign.as_bytes()).expect("should parse");
    assert_eq!(a, b);
}

#[test]
fn licenses_round_trip_through_xml_text() {
    let original = Licenses(vec![
        LicenseChoice::License(License {
            license_identifier: LicenseIdentifier::SpdxId("MIT".to_string()),
            text: None,
            url: Some("https://example.com/mit".to_string()),
        }),
        LicenseChoice::Expression("Apache-2.0 OR MIT".to_string()),
    ]);
    let bytes = write_licenses_xml(&original).expect("should write");
    let parsed = parse_licenses_xml(&bytes).expect("should parse");
    assert_eq!(parsed, original);
}

#[test]
fn empty_licenses_round_trip_stays_an_empty_sequence() {
    let original = Licenses(vec![]);
    let bytes = write_licenses_xml(&original).expect("should write");
    let parsed = parse_licenses_xml(&bytes).expect("should parse");
    assert_eq!(parsed, original);
}

#[test]
fn it_should_deserialize_from_xml() {
    let input = r#"
<?xml version="1.0" encoding="utf-8"?>
<bom xmlns="http://cyclonedx.org/schema/bom/1.4" serialNumber="fake-uuid" version="1" />
"#
    .trim_start();
    let actual = cyclonedx_bom::xml_api::parse_bom_xml(
        input.as_bytes(),
        cyclonedx_bom::model::SpecVersion::V1_4,
    )
    .expect("should parse");
    let expected = cyclonedx_bom::model::Bom {
        version: 1,
        serial_number: Some("fake-uuid".to_string()),
        metadata: None,
        components: None,
        services: None,
        external_references: None,
        dependencies: None,
        compositions: None,
        properties: None,
        vulnerabilities: None,
        signature: None,
    };
    assert_eq!(actual, expected);
}

#[test]
fn wrong_namespace_is_an_invalid_namespace_error() {
    let input = r#"<bom xmlns="http://cyclonedx.org/schema/bom/1.3" version="1" />"#;
    let actual = cyclonedx_bom::xml_api::parse_bom_xml(
        input.as_bytes(),
        cyclonedx_bom::model::SpecVersion::V1_4,
    );
    assert_eq!(
        actual,
        Err(cyclonedx_bom::errors::Error::InvalidNamespace {
            expected: "http://cyclonedx.org/schema/bom/1.4".to_string(),
            actual: "http://cyclonedx.org/schema/bom/1.3".to_string(),
        })
    );
}

#[test]
fn absent_version_attribute_defaults_to_one() {
    let input = r#"<bom xmlns="http://cyclonedx.org/schema/bom/1.4" />"#;
    let actual = cyclonedx_bom::xml_api::parse_bom_xml(
        input.as_bytes(),
        cyclonedx_bom::model::SpecVersion::V1_4,
    )
    .expect("should parse");
    assert_eq!(actual.version, 1);
    assert_eq!(actual.serial_number, None);
}

#[test]
fn bad_version_attribute_is_a_value_parse_error() {
    let input = r#"<bom xmlns="http://cyclonedx.org/schema/bom/1.4" version="one" />"#;
    let actual = cyclonedx_bom::xml_api::parse_bom_xml(
        input.as_bytes(),
        cyclonedx_bom::model::SpecVersion::V1_4,
    );
    assert_eq!(
        actual,
        Err(cyclonedx_bom::errors::Error::ValueParse {
            field: "version".to_string(),
            text: "one".to_string(),
        })
    );
}

#[test]
fn absent_vulnerabilities_section_reads_back_as_absent_not_empty() {
    let absent = r#"<bom xmlns="http://cyclonedx.org/schema/bom/1.4" version="1" />"#;
    let empty = r#"<bom xmlns="http://cyclonedx.org/schema/bom/1.4" version="1"><vulnerabilities /></bom>"#;
    let a = cyclonedx_bom::xml_api::parse_bom_xml(
        absent.as_bytes(),
        cyclonedx_bom::model::SpecVersion::V1_4,
    )
    .expect("should parse");
    let b = cyclonedx_bom::xml_api::parse_bom_xml(
        empty.as_bytes(),
        cyclonedx_bom::model::SpecVersion::V1_4,
    )
    .expect("should parse");
    assert_eq!(a.vulnerabilities, None);
    assert_eq!(b.vulnerabilities, Some(vec![]));
}

#[test]
fn foreign_elements_at_bom_level_are_lax_skipped() {
    let with_foreign = r#"<bom xmlns="http://cyclonedx.org/schema/bom/1.4" xmlns:example="https://example.com" version="1"><properties><property name="n">v</property></properties><example:laxValidation><example:innerElement id="test" /></example:laxValidation></bom>"#;
    let without = r#"<bom xmlns="http://cyclonedx.org/schema/bom/1.4" version="1"><properties><property name="n">v</property></properties></bom>"#;
    let a = cyclonedx_bom::xml_api::parse_bom_xml(
        with_foreign.as_bytes(),
        cyclonedx_bom::model::SpecVersion::V1_4,
    )
    .expect("should parse");
    let b = cyclonedx_bom::xml_api::parse_bom_xml(
        without.as_bytes(),
        cyclonedx_bom::model::SpecVersion::V1_4,
    )
    .expect("should parse");
    assert_eq!(a, b);
}

#[test]
fn vulnerabilities_below_schema_version_fourteen_are_not_recognized() {
    let doc = r#"<bom xmlns="http://cyclonedx.org/schema/bom/1.3" version="1"><vulnerabilities /></bom>"#;
    let parsed = cyclonedx_bom::xml_api::parse_bom_xml(
        doc.as_bytes(),
        cyclonedx_bom::model::SpecVersion::V1_3,
    )
    .expect("should parse");
    assert_eq!(parsed.vulnerabilities, None);
}

#[test]
fn unknown_children_of_licenses_are_lax_skipped() {
    let with_foreign = r#"
<licenses xmlns:example="https://example.com">
  <expression>expression</expression>
  <example:extra>text</example:extra>
  <expression>expression</expression>
</licenses>
"#;
    let without = r#"
<licenses>
  <expression>expression</expression>
  <expression>expression</expression>
</licenses>
"#;
    let a = parse_licenses_xml(with_foreign.as_bytes()).expect("should parse");
    let b = parse_licenses_xml(without.as_bytes()).expect("should parse");
    assert_eq!(a, b);
}

#[test]
fn it_should_serialize_to_xml() {
    let bom = cyclonedx_bom::model::Bom {
        version: 1,
        serial_number: Some("fake-uuid".to_string()),
        metadata: None,
        components: None,
        services: None,
        external_references: None,
        dependencies: None,
        compositions: None,
        properties: None,
        vulnerabilities: None,
        signature: None,
    };
    let bytes = cyclonedx_bom::xml_api::write_bom_xml(
        &bom,
        cyclonedx_bom::model::SpecVersion::V1_4,
    )
    .expect("should write");
    let text = String::from_utf8(bytes).expect("utf-8");
    assert_eq!(
        text,
        r#"<bom xmlns="http://cyclonedx.org/schema/bom/1.4" serialNumber="fake-uuid" version="1"/>"#
    );
}

#[test]
fn empty_components_section_round_trips_as_present_and_empty() {
    let doc = r#"<bom xmlns="http://cyclonedx.org/schema/bom/1.4" version="1"><components /></bom>"#;
    let parsed = cyclonedx_bom::xml_api::parse_bom_xml(
        doc.as_bytes(),
        cyclonedx_bom::model::SpecVersion::V1_4,
    )
    .expect("should parse");
    assert_eq!(parsed.components, Some(vec![]));
    let rewritten = cyclonedx_bom::xml_api::write_bom_xml(
        &parsed,
        cyclonedx_bom::model::SpecVersion::V1_4,
    )
    .expect("should write");
    let reparsed = cyclonedx_bom::xml_api::parse_bom_xml(
        &rewritten,
        cyclonedx_bom::model::SpecVersion::V1_4,
    )
    .expect("should reparse");
    assert_eq!(reparsed.components, Some(vec![]));
    assert_eq!(reparsed, parsed);
}

#[test]
fn populated_vulnerabilities_are_rejected_below_schema_version_fourteen() {
    let bom = cyclonedx_bom::model::Bom {
        version: 1,
        serial_number: None,
        metadata: None,
        components: None,
        services: None,
        external_references: None,
        dependencies: None,
        compositions: None,
        properties: None,
        vulnerabilities: Some(vec![cyclonedx_bom::model::Vulnerability {
            bom_ref: None,
            id: Some("CVE-2024-0001".to_string()),
            source: None,
            references: None,
            ratings: None,
            cwes: None,
            description: None,
            detail: None,
            recommendation: None,
            advisories: None,
            created: None,
            published: None,
            updated: None,
            credits: None,
            tools: None,
            analysis: None,
            affects: None,
            properties: None,
        }]),
        signature: None,
    };
    let r = cyclonedx_bom::xml_api::write_bom_xml(
        &bom,
        cyclonedx_bom::model::SpecVersion::V1_3,
    );
    assert_eq!(
        r,
        Err(cyclonedx_bom::errors::Error::UnsupportedInVersion {
            field: "vulnerabilities".to_string(),
            version: "1.3".to_string(),
        })
    );
    assert!(cyclonedx_bom::xml_api::write_bom_xml(
        &bom,
        cyclonedx_bom::model::SpecVersion::V1_4,
    )
    .is_ok());
}

fn maximal_bom() -> cyclonedx_bom::model::Bom {
    Bom {
        version: 7,
        serial_number: Some("urn:uuid:12345678-1234-1234-1234-123456789012".to_string()),
        metadata: Some(Metadata {
            timestamp: Some("timestamp".to_string()),
            tools: Some(vec![Tool {
                vendor: Some("vendor".to_string()),
                name: Some("name".to_string()),
                version: Some("version".to_string()),
                hashes: Some(vec![cyclonedx_bom::model::Hash {
                    alg: "algorithm".to_string(),
                    content: "hash value".to_string(),
                }]),
            }]),
            authors: Some(vec![OrganizationalContact {
                name: Some("name".to_string()),
                email: Some("email".to_string()),
                phone: Some("phone".to_string()),
            }]),
            component: Some(leaf_component("primary")),
            manufacture: Some(OrganizationalEntity {
                name: Some("manufacture".to_string()),
                urls: vec!["url".to_string()],
                contacts: vec![OrganizationalContact {
                    name: Some("contact".to_string()),
                    email: None,
                    phone: None,
                }],
            }),
            supplier: Some(OrganizationalEntity {
                name: Some("supplier".to_string()),
                urls: vec![],
                contacts: vec![],
            }),
            licenses: Some(Licenses(vec![LicenseChoice::Expression(
                "expression".to_string(),
            )])),
            properties: Some(vec![Property {
                name: "name".to_string(),
                value: "value".to_string(),
            }]),
        }),
        components: Some(vec![nested_component()]),
        services: Some(vec![Service {
            bom_ref: Some("service-ref".to_string()),
            provider: Some(OrganizationalEntity {
                name: Some("provider".to_string()),
                urls: vec!["url".to_string()],
                contacts: vec![],
            }),
            group: Some("group".to_string()),
            name: "service-name".to_string(),
            version: Some("version".to_string()),
            description: Some("description".to_string()),
            endpoints: Some(vec!["endpoint".to_string()]),
            authenticated: Some(true),
            x_trust_boundary: Some(true),
            data: Some(vec![DataClassification {
                flow: "flow".to_string(),
                classification: "classification".to_string(),
            }]),
            licenses: Some(Licenses(vec![LicenseChoice::Expression(
                "expression".to_string(),
            )])),
            external_references: None,
            properties: None,
            services: Some(vec![]),
            signature: Some(Signature {
                algorithm: "HS512".to_string(),
                value: "1234567890".to_string(),
            }),
        }]),
        external_references: Some(vec![ExternalReference {
            external_reference_type: "external reference type".to_string(),
            url: "url".to_string(),
            comment: Some("comment".to_string()),
            hashes: Some(vec![cyclonedx_bom::model::Hash {
                alg: "algorithm".to_string(),
                content: "hash value".to_string(),
            }]),
        }]),
        dependencies: Some(vec![Dependency {
            dependency_ref: "ref".to_string(),
            depends_on: vec!["depends on".to_string()],
        }]),
        compositions: Some(vec![Composition {
            aggregate: "aggregate".to_string(),
            assemblies: vec!["assembly".to_string()],
            dependencies: vec!["dependency".to_string()],
            signature: Some(Signature {
                algorithm: "HS512".to_string(),
                value: "1234567890".to_string(),
            }),
        }]),
        properties: Some(vec![Property {
            name: "name".to_string(),
            value: "value".to_string(),
        }]),
        vulnerabilities: Some(vec![Vulnerability {
            bom_ref: Some("vuln-ref".to_string()),
            id: Some("id".to_string()),
            source: Some(VulnerabilitySource {
                name: Some("name".to_string()),
                url: Some("url".to_string()),
            }),
            references: Some(vec![VulnerabilityReference {
                id: Some("id".to_string()),
                source: Some(VulnerabilitySource {
                    name: Some("name".to_string()),
                    url: Some("url".to_string()),
                }),
            }]),
            ratings: Some(vec![Rating {
                source: Some(VulnerabilitySource {
                    name: Some("name".to_string()),
                    url: Some("url".to_string()),
                }),
                score: Some("9.8".to_string()),
                severity: Some("info".to_string()),
                method: Some("CVSSv3".to_string()),
                vector: Some("vector".to_string()),
                justification: Some("justification".to_string()),
            }]),
            cwes: Some(vec![1, 2, 3]),
            description: Some("description".to_string()),
            detail: Some("detail".to_string()),
            recommendation: Some("recommendation".to_string()),
            advisories: Some(vec![Advisory {
                title: Some("title".to_string()),
                url: "url".to_string(),
            }]),
            created: Some("created".to_string()),
            published: Some("published".to_string()),
            updated: Some("updated".to_string()),
            credits: Some(VulnerabilityCredits {
                organizations: Some(vec![OrganizationalEntity {
                    name: Some("name".to_string()),
                    urls: vec!["url".to_string()],
                    contacts: vec![OrganizationalContact {
                        name: Some("name".to_string()),
                        email: Some("email".to_string()),
                        phone: Some("phone".to_string()),
                    }],
                }]),
                individuals: Some(vec![OrganizationalContact {
                    name: Some("name".to_string()),
                    email: Some("email".to_string()),
                    phone: Some("phone".to_string()),
                }]),
            }),
            tools: Some(vec![Tool {
                vendor: Some("vendor".to_string()),
                name: Some("name".to_string()),
                version: Some("version".to_string()),
                hashes: None,
            }]),
            analysis: Some(VulnerabilityAnalysis {
                state: Some("not_affected".to_string()),
                justification: Some("code_not_reachable".to_string()),
                responses: Some(vec!["update".to_string()]),
                detail: Some("detail".to_string()),
            }),
            affects: Some(vec![Target {
                target_ref: "ref".to_string(),
                versions: Some(vec![
                    VersionSpec {
                        version: Some("5.0.0".to_string()),
                        range: None,
                        status: Some("unaffected".to_string()),
                    },
                    VersionSpec {
                        version: None,
                        range: Some("vers:npm/1.2.3|>=2.0.0|<5.0.0".to_string()),
                        status: Some("affected".to_string()),
                    },
                ]),
            }]),
            properties: Some(vec![Property {
                name: "name".to_string(),
                value: "value".to_string(),
            }]),
        }]),
        signature: Some(Signature {
            algorithm: "HS512".to_string(),
            value: "1234567890".to_string(),
        }),
    }
}

fn leaf_component(name: &str) -> cyclonedx_bom::model::Component {
    Component {
        component_type: "library".to_string(),
        mime_type: Some("mime type".to_string()),
        bom_ref: Some(format!("{name}-ref")),
        supplier: Some(OrganizationalEntity {
            name: Some("supplier".to_string()),
            urls: vec!["url".to_string()],
            contacts: vec![OrganizationalContact {
                name: Some("name".to_string()),
                email: Some("email".to_string()),
                phone: Some("phone".to_string()),
            }],
        }),
        author: Some("author".to_string()),
        publisher: Some("publisher".to_string()),
        group: Some("group".to_string()),
        name: name.to_string(),
        version: "version".to_string(),
        description: Some("description".to_string()),
        scope: Some("required".to_string()),
        hashes: Some(vec![cyclonedx_bom::model::Hash {
            alg: "algorithm".to_string(),
            content: "hash value".to_string(),
        }]),
        licenses: Some(Licenses(vec![
            LicenseChoice::License(License {
                license_identifier: LicenseIdentifier::SpdxId("spdx id".to_string()),
                text: Some(AttachedText {
                    content_type: Some("content type".to_string()),
                    encoding: Some("encoding".to_string()),
                    content: "content".to_string(),
                }),
                url: Some("url".to_string()),
            }),
            LicenseChoice::Expression("expression".to_string()),
        ])),
        copyright: Some("copyright".to_string()),
        cpe: Some("cpe".to_string()),
        purl: Some("purl".to_string()),
        modified: Some(true),
        external_references: Some(vec![ExternalReference {
            external_reference_type: "external reference type".to_string(),
            url: "url".to_string(),
            comment: None,
            hashes: None,
        }]),
        properties: Some(vec![Property {
            name: "name".to_string(),
            value: "value".to_string(),
        }]),
        components: None,
        signature: None,
    }
}

fn nested_component() -> cyclonedx_bom::model::Component {
    let mut outer = leaf_component("outer");
    outer.components = Some(vec![leaf_component("inner")]);
    outer.signature = Some(Signature {
        algorithm: "HS512".to_string(),
        value: "1234567890".to_string(),
    });
    outer
}

#[test]
fn minimal_model_round_trips_through_xml_for_every_version() {
    let bom = cyclonedx_bom::model::Bom {
        version: 1,
        serial_number: Some("fake-uuid".to_string()),
        metadata: None,
        components: None,
        services: None,
        external_references: None,
        dependencies: None,
        compositions: None,
        properties: None,
        vulnerabilities: None,
        signature: None,
    };
    for version in [
        SpecVersion::V1_2,
        SpecVersion::V1_3,
        SpecVersion::V1_4,
        SpecVersion::V1_5,
    ] {
        let bytes = cyclonedx_bom::xml_api::write_bom_xml(&bom, version).expect("should write");
        let parsed =
            cyclonedx_bom::xml_api::parse_bom_xml(&bytes, version).expect("should parse");
        assert_eq!(parsed, bom);
    }
}

#[test]
fn maximal_model_round_trips_through_xml() {
    let bom = maximal_bom();
    let bytes = cyclonedx_bom::xml_api::write_bom_xml(
        &bom,
        cyclonedx_bom::model::SpecVersion::V1_4,
    )
    .expect("should write");
    let parsed = cyclonedx_bom::xml_api::parse_bom_xml(
        &bytes,
        cyclonedx_bom::model::SpecVersion::V1_4,
    )
    .expect("should parse");
    assert_eq!(parsed, bom);
}

#[test]
fn signatures_are_rejected_below_schema_version_fourteen() {
    let mut bom = Bom {
        version: 1,
        serial_number: None,
        metadata: None,
        components: Some(vec![leaf_component("signed")]),
        services: None,
        external_references: None,
        dependencies: None,
        compositions: None,
        properties: None,
        vulnerabilities: None,
        signature: None,
    };
    if let Some(cs) = &mut bom.components {
        cs[0].signature = Some(Signature {
            algorithm: "HS512".to_string(),
            value: "1234567890".to_string(),
        });
    }
    let r = cyclonedx_bom::xml_api::write_bom_xml(&bom, SpecVersion::V1_3);
    assert_eq!(
        r,
        Err(cyclonedx_bom::errors::Error::UnsupportedInVersion {
            field: "signature".to_string(),
            version: "1.3".to_string(),
        })
    );
    assert!(cyclonedx_bom::xml_api::write_bom_xml(&bom, SpecVersion::V1_4).is_ok());

    let rooted = Bom {
        version: 1,
        serial_number: None,
        metadata: None,
        components: None,
        services: None,
        external_references: None,
        dependencies: None,
        compositions: None,
        properties: None,
        vulnerabilities: None,
        signature: Some(Signature {
            algorithm: "HS512".to_string(),
            value: "1234567890".to_string(),
        }),
    };
    let r = cyclonedx_bom::xml_api::write_bom_xml(&rooted, SpecVersion::V1_2);
    assert_eq!(
        r,
        Err(cyclonedx_bom::errors::Error::UnsupportedInVersion {
            field: "signature".to_string(),
            version: "1.2".to_string(),
        })
    );
}

#[test]
fn foreign_children_of_repeated_containers_are_lax_skipped() {
    let with_foreign = r#"<bom xmlns="http://cyclonedx.org/schema/bom/1.4" xmlns:example="https://example.com" version="1"><components><component type="library"><name>a</name><version>1</version></component><example:extra>x</example:extra><component type="library"><name>b</name><version>2</version></component></components></bom>"#;
    let without = r#"<bom xmlns="http://cyclonedx.org/schema/bom/1.4" version="1"><components><component type="library"><name>a</name><version>1</version></component><component type="library"><name>b</name><version>2</version></component></components></bom>"#;
    let a = cyclonedx_bom::xml_api::parse_bom_xml(with_foreign.as_bytes(), SpecVersion::V1_4)
        .expect("should parse");
    let b = cyclonedx_bom::xml_api::parse_bom_xml(without.as_bytes(), SpecVersion::V1_4)
        .expect("should parse");
    assert_eq!(a, b);
    assert_eq!(a.components.as_ref().map(|c| c.len()), Some(2));
}

fn ev_name(local: &str) -> cyclonedx_bom::xml_io::EvName {
    cyclonedx_bom::xml_io::EvName {
        ns: None,
        local: local.to_string(),
    }
}

#[test]
fn wrapped_license_reader_returns_the_last_license_child() {
    let events = vec![
        cyclonedx_bom::xml_io::Ev::Start { name: ev_name("license"), attrs: vec![] },
        cyclonedx_bom::xml_io::Ev::Start { name: ev_name("id"), attrs: vec![] },
        cyclonedx_bom::xml_io::Ev::Text("MIT".to_string()),
        cyclonedx_bom::xml_io::Ev::End { name: ev_name("id") },
        cyclonedx_bom::xml_io::Ev::End { name: ev_name("license") },
        cyclonedx_bom::xml_io::Ev::End { name: ev_name("wrapper") },
    ];
    let (license, next) =
        cyclonedx_bom::xml_license::read_wrapped_license(&events, 0, &ev_name("wrapper"))
            .expect("should read");
    assert_eq!(
        license,
        License {
            license_identifier: LicenseIdentifier::SpdxId("MIT".to_string()),
            text: None,
            url: None,
        }
    );
    assert_eq!(next, 6);
}

#[test]
fn wrapped_license_reader_requires_a_license_child() {
    let events = vec![cyclonedx_bom::xml_io::Ev::End { name: ev_name("wrapper") }];
    let r = cyclonedx_bom::xml_license::read_wrapped_license(&events, 0, &ev_name("wrapper"));
    assert_eq!(
        r,
        Err(cyclonedx_bom::errors::Error::RequiredDataMissing {
            required_field: "license".to_string(),
            element: "wrapper".to_string(),
        })
    );
}

#[test]
fn wrapped_expression_reader_returns_the_expression_text() {
    let events = vec![
        cyclonedx_bom::xml_io::Ev::Start { name: ev_name("expression"), attrs: vec![] },
        cyclonedx_bom::xml_io::Ev::Text("Apache-2.0".to_string()),
        cyclonedx_bom::xml_io::Ev::End { name: ev_name("expression") },
        cyclonedx_bom::xml_io::Ev::End { name: ev_name("wrapper") },
    ];
    let (expr, next) =
        cyclonedx_bom::xml_license::read_wrapped_expression(&events, 0, &ev_name("wrapper"))
            .expect("should read");
    assert_eq!(expr, "Apache-2.0".to_string());
    assert_eq!(next, 4);
}

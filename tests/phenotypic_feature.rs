use phenopacket_tools::builders::ExternalReferenceBuilder;
use phenopacket_tools::curie::ontology_class;
use phenopacket_tools::phenotypic_feature::{Evidence, PhenotypicFeatureBuilder};
use phenopacket_tools::time_elements::{time_element_from_str, TimeElement};

#[test]
fn feature_of_id_label() {
    let f = PhenotypicFeatureBuilder::of_id_label("HP:0002162", "Low posterior hairline");
    assert_eq!(f.feature_type.id, "HP:0002162");
    assert!(!f.excluded);
    assert!(f.modifiers.is_empty());
    assert_eq!(f.description, "");
}

#[test]
fn feature_builder_sets_fields() {
    let evidence = Evidence {
        evidence_code: Some(ontology_class("ECO:0000033", "author statement supported by traceable reference").unwrap()),
        reference: Some(ExternalReferenceBuilder::of("PMID:30808312", "case report")),
    };
    let f = PhenotypicFeatureBuilder::builder_id_label("HP:0003701", "Proximal muscle weakness")
        .excluded()
        .onset(time_element_from_str("Juvenile onset").unwrap())
        .resolution(time_element_from_str("P20Y").unwrap())
        .severity_id_label("HP:0012828", "Severe")
        .add_modifier(ontology_class("HP:0012832", "Bilateral").unwrap())
        .add_all_modifiers(vec![ontology_class("HP:0003674", "Onset").unwrap()])
        .add_evidence(evidence.clone())
        .add_all_evidence(vec![evidence.clone(), evidence])
        .description("weakness")
        .build();
    assert!(f.excluded);
    assert!(matches!(&f.onset, Some(TimeElement::OntologyClass(c)) if c.id == "HP:0003621"));
    assert!(matches!(&f.resolution, Some(TimeElement::Age(a)) if a == "P20Y"));
    assert_eq!(f.severity.unwrap().label, "Severe");
    assert_eq!(f.modifiers.len(), 2);
    assert_eq!(f.modifiers[1].id, "HP:0003674");
    assert_eq!(f.evidence.len(), 3);
    assert_eq!(f.evidence[2].reference.as_ref().unwrap().id, "PMID:30808312");
    assert_eq!(f.description, "weakness");
}

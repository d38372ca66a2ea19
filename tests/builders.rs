use phenopacket_tools::builders::{Builder, ExternalReferenceBuilder};

#[test]
fn external_reference_builder_test_two_element_external_reference() {
    let id = "PMID:30962759";
    let description = "Recurrent Erythema Nodosum in a Child with a SHOC2 Gene Mutation";
    let ext_ref = ExternalReferenceBuilder::of(id, description);
    assert_eq!(id, ext_ref.id);
    assert_eq!(description, ext_ref.description);
    assert_eq!("", ext_ref.reference);
}

#[test]
fn test_three_element_external_reference() {
    let id = "PMID:30962759";
    let description = "Recurrent Erythema Nodosum in a Child with a SHOC2 Gene Mutation";
    let reference = "https://pubmed.ncbi.nlm.nih.gov/30962759";
    let ext_ref = ExternalReferenceBuilder::new()
        .id(id)
        .description(description)
        .reference(reference)
        .build();
    assert_eq!(id, ext_ref.id);
    assert_eq!(description, ext_ref.description);
    assert_eq!(reference, ext_ref.reference);
}

#[test]
fn builder_test_two_element_external_reference() {
    let id = "PMID:30962759";
    let description = "Recurrent Erythema Nodosum in a Child with a SHOC2 Gene Mutation";
    let ext_ref = Builder::external_reference(id, description);
    assert_eq!(id, ext_ref.id);
    assert_eq!(description, ext_ref.description);
    assert_eq!("", ext_ref.reference);
}

#[test]
fn builder_ontology_class_validates_id() {
    let term = Builder::ontology_class("OMIM:158810", "Bethlem myopathy 1").unwrap();
    assert_eq!("OMIM:158810", term.id);
    assert_eq!("Bethlem myopathy 1", term.label);
    assert!(Builder::ontology_class("OMIM158810", "Bethlem myopathy 1").is_err());
}

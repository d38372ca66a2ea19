use phenopacket_tools::disease::DiseaseBuilder;
use phenopacket_tools::time_elements::{time_element_from_str, TimeElement};
use phenopacket_tools::vocabulary::left;

#[test]
fn cardiomyopathy() {
    let disease_id = "MONDO:0004994";
    let disease_label = "cardiomyopathy";
    let disease = DiseaseBuilder::of(disease_id, disease_label);
    assert_eq!(disease_id, disease.term.id);
    assert_eq!(disease_label, disease.term.label);
    assert!(!disease.excluded);
    assert!(disease.onset.is_none());
}

#[test]
fn disease_builder_sets_fields() {
    let onset = time_element_from_str("Childhood onset").unwrap();
    let disease = DiseaseBuilder::builder("MONDO:0004994", "cardiomyopathy")
        .excluded()
        .onset(onset)
        .resolution(time_element_from_str("P10Y").unwrap())
        .add_disease_stage(phenopacket_tools::curie::ontology_class("NCIT:C28554", "Stage I").unwrap())
        .add_clinical_tnm_finding(phenopacket_tools::curie::ontology_class("NCIT:C48725", "T2a").unwrap())
        .primary_site(phenopacket_tools::curie::ontology_class("UBERON:0000948", "heart").unwrap())
        .laterality(left())
        .build();
    assert!(disease.excluded);
    assert!(matches!(&disease.onset, Some(TimeElement::OntologyClass(c)) if c.id == "HP:0011463"));
    assert!(matches!(&disease.resolution, Some(TimeElement::Age(a)) if a == "P10Y"));
    assert_eq!(disease.disease_stage.len(), 1);
    assert_eq!(disease.clinical_tnm_finding[0].label, "T2a");
    assert_eq!(disease.primary_site.unwrap().id, "UBERON:0000948");
    assert_eq!(disease.laterality.unwrap().id, "HP:0012835");
}

#[test]
fn sca_with_onset() {
    let disease_id = "OMIM:164400";
    let disease_label = "Spinocerebellar ataxia 1";
    let onset = phenopacket_tools::time_elements::age("P38Y7M").unwrap();
    let disease = DiseaseBuilder::builder(disease_id, disease_label).onset(onset.clone()).build();
    assert_eq!(disease_id, disease.term.id);
    assert_eq!(disease_label, disease.term.label);
    assert!(disease.onset.is_some());
    assert_eq!(format!("{:?}", disease.onset.unwrap()), format!("{:?}", onset));
}

use phenopacket_tools::builders::Builder;
use phenopacket_tools::curie::ontology_class;
use phenopacket_tools::disease::DiseaseBuilder;
use phenopacket_tools::genomic_interpretation::{Call, InterpretationStatus};
use phenopacket_tools::interpretation::{DiagnosisBuilder, ProgressStatus};
use phenopacket_tools::phenopacket::PhenopacketBuilder;
use phenopacket_tools::phenotypic_feature::PhenotypicFeatureBuilder;
use phenopacket_tools::time_elements::Timestamp;
use phenopacket_tools::variation::{AcmgPathogenicityClassification, TherapeuticActionability};

#[test]
fn phenopacket_builder_collects_parts() {
    let meta = Builder::meta_data(Timestamp { seconds: 1, nanos: 0 }, "curator");
    let packet = PhenopacketBuilder::builder("pp1", meta)
        .individual(Builder::individual("proband"))
        .add_phenotypic_feature_from_str("HP:0001629", "Ventricular septal defect")
        .unwrap()
        .add_phenotypic_feature(PhenotypicFeatureBuilder::of_id_label("HP:0000280", "Coarse facial features"))
        .add_phenotypic_features(vec![PhenotypicFeatureBuilder::of_id_label("HP:0001561", "Polyhydramnios")])
        .add_disease(DiseaseBuilder::of("OMIM:158810", "Bethlem myopathy 1"))
        .add_diseases(vec![DiseaseBuilder::of("MONDO:0004994", "cardiomyopathy")])
        .add_measurements(vec![])
        .add_biosamples(vec![])
        .add_medical_actions(vec![])
        .build();
    assert_eq!(packet.id, "pp1");
    assert_eq!(packet.subject.unwrap().id, "proband");
    assert_eq!(packet.phenotypic_features.len(), 3);
    assert_eq!(packet.phenotypic_features[0].feature_type.id, "HP:0001629");
    assert_eq!(packet.diseases.len(), 2);
    assert_eq!(packet.meta_data.created_by, "curator");
    assert_eq!(packet.meta_data.phenopacket_schema_version, "2.0.2");
    let r = PhenopacketBuilder::builder("pp2", Builder::meta_data(Timestamp { seconds: 1, nanos: 0 }, "c"))
        .add_phenotypic_feature_from_str("HP 0001629", "x");
    assert!(r.is_err());
}

#[test]
fn builder_shortcuts() {
    let f = Builder::phenotypic_feature_excluded(ontology_class("HP:0000280", "Coarse facial features").unwrap());
    assert!(f.excluded);
    let f = Builder::phenotypic_feature_observed(ontology_class("HP:0000280", "Coarse facial features").unwrap());
    assert!(!f.excluded);
    let d = Builder::disease(ontology_class("OMIM:158810", "Bethlem myopathy 1").unwrap());
    assert_eq!(d.term.id, "OMIM:158810");
    let g = Builder::gene_descriptor("HGNC:2211", "COL6A1");
    assert_eq!(g.symbol, "COL6A1");
    let gi = Builder::genomic_interpretation_from_gene_descriptor("p", InterpretationStatus::Candidate, g);
    assert!(matches!(gi.call, Call::Gene(_)));
    let vd = Builder::variation_descriptor("v1");
    assert_eq!(vd.id, "v1");
    let vi = Builder::variant_interpretation_vus(vd);
    assert_eq!(vi.acmg_pathogenicity_classification, AcmgPathogenicityClassification::UncertainSignificance);
    assert_eq!(vi.therapeutic_actionability, TherapeuticActionability::UnknownActionability);
    for (vi, acmg) in [
        (Builder::variant_interpretation_benign(Builder::variation_descriptor("a")), AcmgPathogenicityClassification::Benign),
        (Builder::variant_interpretation_likely_benign(Builder::variation_descriptor("a")), AcmgPathogenicityClassification::LikelyBenign),
        (Builder::variant_interpretation_likely_pathogenic(Builder::variation_descriptor("a")), AcmgPathogenicityClassification::LikelyPathogenic),
        (Builder::variant_interpretation_pathogenic(Builder::variation_descriptor("a")), AcmgPathogenicityClassification::Pathogenic),
    ] {
        assert_eq!(vi.acmg_pathogenicity_classification, acmg);
    }
    let gi = Builder::genomic_interpretation_from_variant("p", InterpretationStatus::Causative, vi);
    assert_eq!(gi.interpretation_status, InterpretationStatus::Causative);
    let diag = DiagnosisBuilder::new(ontology_class("OMIM:158810", "Bethlem myopathy 1").unwrap()).add_genomic_interpretation(gi).build();
    let i = Builder::solved_interpretation("i1", diag);
    assert_eq!(i.progress_status, ProgressStatus::Solved);
    assert_eq!(i.summary, "");
    let diag = DiagnosisBuilder::new(ontology_class("OMIM:158810", "x").unwrap()).build();
    assert_eq!(Builder::unsolved_interpretation("i2", diag).progress_status, ProgressStatus::Unsolved);
    let diag = DiagnosisBuilder::new(ontology_class("OMIM:158810", "x").unwrap()).build();
    assert_eq!(Builder::completed_interpretation("i3", diag).progress_status, ProgressStatus::Completed);
    let packet = Builder::phenopacket("pp", Builder::meta_data(Timestamp { seconds: 2, nanos: 3 }, "me"));
    assert!(packet.subject.is_none());
    assert_eq!(packet.meta_data.created, Some(Timestamp { seconds: 2, nanos: 3 }));
}

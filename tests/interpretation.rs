use phenopacket_tools::genomic_interpretation::GenomicInterpretationBuilder;
use phenopacket_tools::interpretation::{DiagnosisBuilder, InterpretationBuilder, ProgressStatus};
use phenopacket_tools::gene_descriptor::GeneDescriptorBuilder;

#[test]
fn diagnosis_and_interpretation() {
    let gi = GenomicInterpretationBuilder::builder("proband A")
        .causative()
        .gene_descriptor(GeneDescriptorBuilder::of("HGNC:2211", "COL6A1"))
        .unwrap()
        .build()
        .unwrap();
    let diagnosis = DiagnosisBuilder::builder("OMIM:158810", "Bethlem myopathy 1")
        .unwrap()
        .add_genomic_interpretation(gi)
        .build();
    assert_eq!(diagnosis.disease.id, "OMIM:158810");
    assert_eq!(diagnosis.genomic_interpretations.len(), 1);
    let interpretation = InterpretationBuilder::new("interpretation.id")
        .summary("solved by exome")
        .solved(diagnosis)
        .build();
    assert_eq!(interpretation.id, "interpretation.id");
    assert_eq!(interpretation.progress_status, ProgressStatus::Solved);
    assert_eq!(interpretation.summary, "solved by exome");
    assert_eq!(interpretation.diagnosis.unwrap().disease.label, "Bethlem myopathy 1");
}

#[test]
fn interpretation_in_progress() {
    let i = InterpretationBuilder::new("x").in_progress().build();
    assert_eq!(i.progress_status, ProgressStatus::InProgress);
    assert!(i.diagnosis.is_none());
    assert_eq!(i.summary, "");
    assert!(DiagnosisBuilder::builder("OMIM158810", "x").is_err());
}

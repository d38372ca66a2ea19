use phenopacket_tools::error::{Error, ErrorKind};
use phenopacket_tools::genomic_interpretation::{
    Call, GenomicInterpretationBuilder, InterpretationStatus,
};
use phenopacket_tools::gene_descriptor::{GeneDescriptor, GeneDescriptorBuilder};
use phenopacket_tools::variation::{
    VariantInterpretation, VariantInterpretationBuilder, VariationDescriptorBuilder,
};

fn variant() -> VariantInterpretation {
    let descriptor = VariationDescriptorBuilder::builder("var1").hgvs("NM_001848.3:c.877G>A").build();
    VariantInterpretationBuilder::new(descriptor).pathogenic().build()
}

fn gene(symbol: &str) -> GeneDescriptor {
    GeneDescriptorBuilder::of("HGNC:2211", symbol)
}

#[test]
fn gene_interpretation_is_built() {
    let gi = GenomicInterpretationBuilder::builder("proband A")
        .causative()
        .gene_descriptor(gene("COL6A1"))
        .unwrap()
        .build()
        .unwrap();
    assert_eq!(gi.subject_or_biosample_id, "proband A");
    assert_eq!(gi.interpretation_status, InterpretationStatus::Causative);
    assert!(matches!(gi.call, Call::Gene(g) if g.symbol == "COL6A1"));
}

#[test]
fn variant_interpretation_is_built() {
    let gi = GenomicInterpretationBuilder::builder("sample 1")
        .candidate()
        .variant_interpretation(variant())
        .unwrap()
        .build()
        .unwrap();
    assert_eq!(gi.interpretation_status, InterpretationStatus::Candidate);
    assert!(matches!(gi.call, Call::VariantInterpretation(_)));
}

#[test]
fn gene_and_variant_together_are_refused() {
    let r = GenomicInterpretationBuilder::builder("p")
        .rejected()
        .gene_descriptor(gene("X"))
        .unwrap()
        .variant_interpretation(variant());
    assert!(matches!(r, Err(Error::BothGeneAndVariant)));
    let r = GenomicInterpretationBuilder::builder("p")
        .variant_interpretation(variant())
        .unwrap()
        .gene_descriptor(gene("X"));
    assert!(matches!(r, Err(Error::BothGeneAndVariant)));
}

#[test]
fn missing_status_or_call_is_refused() {
    let r = GenomicInterpretationBuilder::builder("p").gene_descriptor(gene("X")).unwrap().build();
    assert_eq!(r.err().map(|e| e.kind()), Some(ErrorKind::NoInterpretationStatus));
    let r = GenomicInterpretationBuilder::builder("p").contributory().unknown().build();
    assert!(matches!(r, Err(Error::NoInterpretationStatus)));
    let r = GenomicInterpretationBuilder::builder("p").contributory().build();
    assert!(matches!(r, Err(Error::NoGeneOrVariant)));
}

use phenopacket_tools::curie::ontology_class;
use phenopacket_tools::gene_descriptor::GeneDescriptorBuilder;
use phenopacket_tools::resources::Expressions;
use phenopacket_tools::variation::{
    AcmgPathogenicityClassification, Extension, MoleculeContext, TherapeuticActionability,
    VariantInterpretationBuilder, VariationDescriptorBuilder, MOSAICISM,
};

#[test]
fn variation_descriptor_defaults() {
    let vd = VariationDescriptorBuilder::builder("var1").build();
    assert_eq!(vd.id, "var1");
    assert_eq!(vd.molecule_context, MoleculeContext::UnspecifiedMoleculeContext);
    assert!(vd.expressions.is_empty());
    assert!(vd.allelic_state.is_none());
    assert!(vd.variation.is_none());
}

#[test]
fn variation_descriptor_sets_fields() {
    let vd = VariationDescriptorBuilder::builder("var2")
        .label("COL6A1 c.877G>A")
        .description("missense")
        .gene_context(GeneDescriptorBuilder::of("HGNC:2211", "COL6A1"))
        .hgvs("NM_001848.3:c.877G>A")
        .spdi("NC_000021.9:45989626:G:A")
        .iscn("46,XY")
        .add_expression(Expressions::transcript_reference("NM_001848.3"))
        .vcf_hg38("chr21", 45989626, "G", "A")
        .add_xref("clinvar:1")
        .add_all_xrefs(vec!["dbsnp:rs1".to_string()])
        .add_alternate_label("G293R")
        .add_all_alternate_labels(vec!["p.Gly293Arg".to_string()])
        .genomic()
        .structural_type(ontology_class("SO:0001583", "missense_variant").unwrap())
        .heterozygous()
        .add_extension(Extension { name: MOSAICISM.to_string(), value: "40.0%".to_string() })
        .build();
    assert_eq!(vd.label, "COL6A1 c.877G>A");
    assert_eq!(vd.gene_context.unwrap().symbol, "COL6A1");
    let syntaxes: Vec<&str> = vd.expressions.iter().map(|e| e.syntax.as_str()).collect();
    assert_eq!(syntaxes, vec!["hgvs", "spdi", "iscn", "transcript_reference"]);
    let vcf = vd.vcf_record.unwrap();
    assert_eq!(vcf.genome_assembly, "GRCh38");
    assert_eq!(vcf.pos, 45989626);
    assert_eq!(vd.xrefs, vec!["clinvar:1", "dbsnp:rs1"]);
    assert_eq!(vd.alternate_labels, vec!["G293R", "p.Gly293Arg"]);
    assert_eq!(vd.molecule_context, MoleculeContext::Genomic);
    assert_eq!(vd.allelic_state.unwrap().id, "GENO:0000135");
    assert_eq!(vd.extensions[0].name, "mosaicism");
}

#[test]
fn variation_descriptor_other_contexts() {
    let vd = VariationDescriptorBuilder::builder("v").protein().homozygous().vcf_hg37("1", 5, "A", "C").build();
    assert_eq!(vd.molecule_context, MoleculeContext::Protein);
    assert_eq!(vd.allelic_state.unwrap().label, "homozygous");
    assert_eq!(vd.vcf_record.unwrap().genome_assembly, "GRCh37");
    let vd = VariationDescriptorBuilder::builder("v").transcript().hemizygous().build();
    assert_eq!(vd.molecule_context, MoleculeContext::Transcript);
    assert_eq!(vd.allelic_state.unwrap().id, "GENO:0000134");
    let vd = VariationDescriptorBuilder::builder("v").unspecified_zygosity().build();
    assert_eq!(vd.allelic_state.unwrap().id, "GENO:0000137");
}

#[test]
fn variant_interpretation_builder() {
    let vi = VariantInterpretationBuilder::new(VariationDescriptorBuilder::builder("v").build()).build();
    assert_eq!(vi.acmg_pathogenicity_classification, AcmgPathogenicityClassification::NotProvided);
    assert_eq!(vi.therapeutic_actionability, TherapeuticActionability::UnknownActionability);
    let vi = VariantInterpretationBuilder::new(VariationDescriptorBuilder::builder("v").build())
        .likely_pathogenic()
        .actionable()
        .build();
    assert_eq!(vi.acmg_pathogenicity_classification, AcmgPathogenicityClassification::LikelyPathogenic);
    assert_eq!(vi.therapeutic_actionability, TherapeuticActionability::Actionable);
    assert_eq!(vi.variation_descriptor.id, "v");
    let vi = VariantInterpretationBuilder::of(
        VariationDescriptorBuilder::builder("w").build(),
        AcmgPathogenicityClassification::Benign,
    );
    assert_eq!(vi.acmg_pathogenicity_classification, AcmgPathogenicityClassification::Benign);
    assert_eq!(vi.therapeutic_actionability, TherapeuticActionability::UnknownActionability);
    let vi = VariantInterpretationBuilder::of_with_actionability(
        VariationDescriptorBuilder::builder("w").build(),
        AcmgPathogenicityClassification::UncertainSignificance,
        TherapeuticActionability::NotActionable,
    );
    assert_eq!(vi.therapeutic_actionability, TherapeuticActionability::NotActionable);
    let b = VariantInterpretationBuilder::new(VariationDescriptorBuilder::builder("w").build());
    let vi = b.benign().likely_benign().uncertain_significance().pathogenic().acmg_not_provided().not_actionable().actionability_unknown().build();
    assert_eq!(vi.acmg_pathogenicity_classification, AcmgPathogenicityClassification::NotProvided);
}

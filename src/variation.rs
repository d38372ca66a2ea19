use vstd::prelude::*;
use vstd::string::StringExecFns;

use phenopackets::ga4gh::vrs::v1::Variation;

use crate::builders::strings_view;
use crate::curie::OntologyClass;
use crate::disease::classes_view;
use crate::gene_descriptor::{append_strings, push_string, GeneDescriptor, GeneDescriptorView};
use crate::individual::class_view;
use crate::resources::Expression;
use crate::vcf_record::{bare_record, VcfRecord, VcfRecordBuilder, VcfRecordView};
use crate::vocabulary::AllelicState;

verus! {

// A VRS variation of the phenopacket schema is carried through unchanged;
// nothing here looks inside it.
#[verifier::external_type_specification]
#[verifier::external_body]
pub struct ExVariation(Variation);

/// The name of the extension that gives the fraction of cells that carry
/// a mosaic variant.
pub const MOSAICISM: &'static str = "mosaicism";

/// The name of the extension that gives an allele frequency.
pub const ALLELE_FREQUENCY: &'static str = "allele-frequency";

/// A named value attached to a variant.
#[derive(Clone, Debug)]
pub struct Extension {
    pub name: String,
    pub value: String,
}

impl View for Extension {
    /// `(name, value)`
    type V = (Seq<char>, Seq<char>);

    open spec fn view(&self) -> Self::V {
        (self.name@, self.value@)
    }
}

/// The kind of molecule a variant is described on.
#[derive(Clone, Copy, Debug, PartialEq, Eq, Structural)]
pub enum MoleculeContext {
    UnspecifiedMoleculeContext,
    Genomic,
    Transcript,
    Protein,
}

/// A variant with the ways of writing it and its context.
pub struct VariationDescriptor {
    pub id: String,
    pub variation: Option<Variation>,
    pub label: String,
    pub description: String,
    pub gene_context: Option<GeneDescriptor>,
    pub expressions: Vec<Expression>,
    pub vcf_record: Option<VcfRecord>,
    pub xrefs: Vec<String>,
    pub alternate_labels: Vec<String>,
    pub extensions: Vec<Extension>,
    pub molecule_context: MoleculeContext,
    pub structural_type: Option<OntologyClass>,
    pub vrs_ref_allele_seq: String,
    pub allelic_state: Option<OntologyClass>,
}

pub ghost struct VariationDescriptorView {
    pub id: Seq<char>,
    pub variation: Option<Variation>,
    pub label: Seq<char>,
    pub description: Seq<char>,
    pub gene_context: Option<GeneDescriptorView>,
    pub expressions: Seq<(Seq<char>, Seq<char>, Seq<char>)>,
    pub vcf_record: Option<VcfRecordView>,
    pub xrefs: Seq<Seq<char>>,
    pub alternate_labels: Seq<Seq<char>>,
    pub extensions: Seq<(Seq<char>, Seq<char>)>,
    pub molecule_context: MoleculeContext,
    pub structural_type: Option<(Seq<char>, Seq<char>)>,
    pub vrs_ref_allele_seq: Seq<char>,
    pub allelic_state: Option<(Seq<char>, Seq<char>)>,
}

pub open spec fn expressions_view(v: Seq<Expression>) -> Seq<(Seq<char>, Seq<char>, Seq<char>)> {
    v.map_values(|e: Expression| e@)
}

pub open spec fn extensions_view(v: Seq<Extension>) -> Seq<(Seq<char>, Seq<char>)> {
    v.map_values(|e: Extension| e@)
}

impl View for VariationDescriptor {
    type V = VariationDescriptorView;

    open spec fn view(&self) -> VariationDescriptorView {
        VariationDescriptorView {
            id: self.id@,
            variation: self.variation,
            label: self.label@,
            description: self.description@,
            gene_context: match self.gene_context {
                Some(g) => Some(g@),
                None => None,
            },
            expressions: expressions_view(self.expressions@),
            vcf_record: match self.vcf_record {
                Some(v) => Some(v@),
                None => None,
            },
            xrefs: strings_view(self.xrefs@),
            alternate_labels: strings_view(self.alternate_labels@),
            extensions: extensions_view(self.extensions@),
            molecule_context: self.molecule_context,
            structural_type: class_view(self.structural_type),
            vrs_ref_allele_seq: self.vrs_ref_allele_seq@,
            allelic_state: class_view(self.allelic_state),
        }
    }
}

/// A descriptor with an id and nothing else.
pub open spec fn bare_descriptor(id: Seq<char>) -> VariationDescriptorView {
    VariationDescriptorView {
        id,
        variation: None,
        label: Seq::empty(),
        description: Seq::empty(),
        gene_context: None,
        expressions: Seq::empty(),
        vcf_record: None,
        xrefs: Seq::empty(),
        alternate_labels: Seq::empty(),
        extensions: Seq::empty(),
        molecule_context: MoleculeContext::UnspecifiedMoleculeContext,
        structural_type: None,
        vrs_ref_allele_seq: Seq::empty(),
        allelic_state: None,
    }
}

/// Builds a `VariationDescriptor` one field at a time.
pub struct VariationDescriptorBuilder {
    descriptor: VariationDescriptor,
}

impl View for VariationDescriptorBuilder {
    type V = VariationDescriptorView;

    closed spec fn view(&self) -> VariationDescriptorView {
        self.descriptor@
    }
}

impl VariationDescriptorBuilder {
    pub fn builder(id: &str) -> (r: Self)
        ensures
            r@ == bare_descriptor(id@),
    {
        let r = VariationDescriptorBuilder {
            descriptor: VariationDescriptor {
                id: String::from_str(id),
                variation: None,
                label: String::new(),
                description: String::new(),
                gene_context: None,
                expressions: Vec::new(),
                vcf_record: None,
                xrefs: Vec::new(),
                alternate_labels: Vec::new(),
                extensions: Vec::new(),
                molecule_context: MoleculeContext::UnspecifiedMoleculeContext,
                structural_type: None,
                vrs_ref_allele_seq: String::new(),
                allelic_state: None,
            },
        };
        assert(expressions_view(r.descriptor.expressions@) =~= Seq::<
            (Seq<char>, Seq<char>, Seq<char>),
        >::empty());
        assert(strings_view(r.descriptor.xrefs@) =~= Seq::<Seq<char>>::empty());
        assert(strings_view(r.descriptor.alternate_labels@) =~= Seq::<Seq<char>>::empty());
        assert(extensions_view(r.descriptor.extensions@) =~= Seq::<(Seq<char>, Seq<char>)>::empty());
        r
    }

    pub fn label(self, label: &str) -> (r: Self)
        ensures
            r@ == (VariationDescriptorView { label: label@, ..self@ }),
    {
        let mut s = self;
        s.descriptor.label = String::from_str(label);
        s
    }

    pub fn variation(self, variation: Variation) -> (r: Self)
        ensures
            r@ == (VariationDescriptorView { variation: Some(variation), ..self@ }),
    {
        let mut s = self;
        s.descriptor.variation = Some(variation);
        s
    }

    pub fn description(self, desc: &str) -> (r: Self)
        ensures
            r@ == (VariationDescriptorView { description: desc@, ..self@ }),
    {
        let mut s = self;
        s.descriptor.description = String::from_str(desc);
        s
    }

    pub fn gene_context(self, gene: GeneDescriptor) -> (r: Self)
        ensures
            r@ == (VariationDescriptorView { gene_context: Some(gene@), ..self@ }),
    {
        let mut s = self;
        s.descriptor.gene_context = Some(gene);
        s
    }

    pub fn vcf_record(self, vcf: VcfRecord) -> (r: Self)
        ensures
            r@ == (VariationDescriptorView { vcf_record: Some(vcf@), ..self@ }),
    {
        let mut s = self;
        s.descriptor.vcf_record = Some(vcf);
        s
    }

    pub fn add_xref(self, xref: &str) -> (r: Self)
        ensures
            r@ == (VariationDescriptorView { xrefs: self@.xrefs.push(xref@), ..self@ }),
    {
        let mut s = self;
        push_string(&mut s.descriptor.xrefs, xref);
        s
    }

    pub fn add_all_xrefs(self, xrefs: Vec<String>) -> (r: Self)
        ensures
            r@ == (VariationDescriptorView { xrefs: self@.xrefs + strings_view(xrefs@), ..self@ }),
    {
        let mut s = self;
        append_strings(&mut s.descriptor.xrefs, xrefs);
        s
    }

    pub fn add_alternate_label(self, label: &str) -> (r: Self)
        ensures
            r@ == (VariationDescriptorView {
                alternate_labels: self@.alternate_labels.push(label@),
                ..self@
            }),
    {
        let mut s = self;
        push_string(&mut s.descriptor.alternate_labels, label);
        s
    }

    pub fn add_all_alternate_labels(self, labels: Vec<String>) -> (r: Self)
        ensures
            r@ == (VariationDescriptorView {
                alternate_labels: self@.alternate_labels + strings_view(labels@),
                ..self@
            }),
    {
        let mut s = self;
        append_strings(&mut s.descriptor.alternate_labels, labels);
        s
    }

    pub fn molecule_context(self, context: MoleculeContext) -> (r: Self)
        ensures
            r@ == (VariationDescriptorView { molecule_context: context, ..self@ }),
    {
        let mut s = self;
        s.descriptor.molecule_context = context;
        s
    }

    pub fn genomic(self) -> (r: Self)
        ensures
            r@ == (VariationDescriptorView { molecule_context: MoleculeContext::Genomic, ..self@ }),
    {
        self.molecule_context(MoleculeContext::Genomic)
    }

    pub fn protein(self) -> (r: Self)
        ensures
            r@ == (VariationDescriptorView { molecule_context: MoleculeContext::Protein, ..self@ }),
    {
        self.molecule_context(MoleculeContext::Protein)
    }

    pub fn transcript(self) -> (r: Self)
        ensures
            r@ == (VariationDescriptorView {
                molecule_context: MoleculeContext::Transcript,
                ..self@
            }),
    {
        self.molecule_context(MoleculeContext::Transcript)
    }

    pub fn structural_type(self, structural_type: OntologyClass) -> (r: Self)
        ensures
            r@ == (VariationDescriptorView { structural_type: Some(structural_type@), ..self@ }),
    {
        let mut s = self;
        s.descriptor.structural_type = Some(structural_type);
        s
    }

    pub fn zygosity(self, zygosity: OntologyClass) -> (r: Self)
        ensures
            r@ == (VariationDescriptorView { allelic_state: Some(zygosity@), ..self@ }),
    {
        let mut s = self;
        s.descriptor.allelic_state = Some(zygosity);
        s
    }

    pub fn heterozygous(self) -> (r: Self)
        ensures
            r@ == (VariationDescriptorView {
                allelic_state: Some(("GENO:0000135"@, "heterozygous"@)),
                ..self@
            }),
    {
        self.zygosity(AllelicState::heterozygous())
    }

    pub fn homozygous(self) -> (r: Self)
        ensures
            r@ == (VariationDescriptorView {
                allelic_state: Some(("GENO:0000136"@, "homozygous"@)),
                ..self@
            }),
    {
        self.zygosity(AllelicState::homozygous())
    }

    pub fn hemizygous(self) -> (r: Self)
        ensures
            r@ == (VariationDescriptorView {
                allelic_state: Some(("GENO:0000134"@, "hemizygous"@)),
                ..self@
            }),
    {
        self.zygosity(AllelicState::hemizygous())
    }

    pub fn unspecified_zygosity(self) -> (r: Self)
        ensures
            r@ == (VariationDescriptorView {
                allelic_state: Some(("GENO:0000137"@, "unspecified zygosity"@)),
                ..self@
            }),
    {
        self.zygosity(AllelicState::unspecified_zygosity())
    }

    pub fn add_expression(self, expr: Expression) -> (r: Self)
        ensures
            r@ == (VariationDescriptorView { expressions: self@.expressions.push(expr@), ..self@ }),
    {
        let mut s = self;
        let ghost before = s.descriptor.expressions@;
        s.descriptor.expressions.push(expr);
        assert(expressions_view(s.descriptor.expressions@) =~= expressions_view(before).push(
            expr@,
        ));
        s
    }

    fn add_written(self, syntax: &str, value: &str) -> (r: Self)
        ensures
            r@ == (VariationDescriptorView {
                expressions: self@.expressions.push((syntax@, value@, Seq::empty())),
                ..self@
            }),
    {
        self.add_expression(
            Expression {
                syntax: String::from_str(syntax),
                value: String::from_str(value),
                version: String::new(),
            },
        )
    }

    /// Adds an HGVS expression.
    pub fn hgvs(self, value: &str) -> (r: Self)
        ensures
            r@ == (VariationDescriptorView {
                expressions: self@.expressions.push(("hgvs"@, value@, Seq::empty())),
                ..self@
            }),
    {
        self.add_written("hgvs", value)
    }

    /// Adds an SPDI expression.
    pub fn spdi(self, value: &str) -> (r: Self)
        ensures
            r@ == (VariationDescriptorView {
                expressions: self@.expressions.push(("spdi"@, value@, Seq::empty())),
                ..self@
            }),
    {
        self.add_written("spdi", value)
    }

    /// Adds an ISCN expression.
    pub fn iscn(self, value: &str) -> (r: Self)
        ensures
            r@ == (VariationDescriptorView {
                expressions: self@.expressions.push(("iscn"@, value@, Seq::empty())),
                ..self@
            }),
    {
        self.add_written("iscn", value)
    }

    /// Sets a VCF record on assembly GRCh38.
    pub fn vcf_hg38(self, chromosome: &str, position: u64, ref_allele: &str, alt_allele: &str) -> (r:
        Self)
        ensures
            r@ == (VariationDescriptorView {
                vcf_record: Some(
                    bare_record("GRCh38"@, chromosome@, position, ref_allele@, alt_allele@),
                ),
                ..self@
            }),
    {
        self.vcf_record(VcfRecordBuilder::of("GRCh38", chromosome, position, ref_allele, alt_allele))
    }

    /// Sets a VCF record on assembly GRCh37.
    pub fn vcf_hg37(self, chromosome: &str, position: u64, ref_allele: &str, alt_allele: &str) -> (r:
        Self)
        ensures
            r@ == (VariationDescriptorView {
                vcf_record: Some(
                    bare_record("GRCh37"@, chromosome@, position, ref_allele@, alt_allele@),
                ),
                ..self@
            }),
    {
        self.vcf_record(VcfRecordBuilder::of("GRCh37", chromosome, position, ref_allele, alt_allele))
    }

    /// Adds an extension (such as a mosaicism or an allele frequency).
    pub fn add_extension(self, extension: Extension) -> (r: Self)
        ensures
            r@ == (VariationDescriptorView {
                extensions: self@.extensions.push(extension@),
                ..self@
            }),
    {
        let mut s = self;
        let ghost before = s.descriptor.extensions@;
        s.descriptor.extensions.push(extension);
        assert(extensions_view(s.descriptor.extensions@) =~= extensions_view(before).push(
            extension@,
        ));
        s
    }

    /// The descriptor with the fields set so far.
    pub fn build(self) -> (r: VariationDescriptor)
        ensures
            r@ == self@,
    {
        self.descriptor
    }
}

/// The ACMG classification of a variant's pathogenicity.
#[derive(Clone, Copy, Debug, PartialEq, Eq, Structural)]
pub enum AcmgPathogenicityClassification {
    NotProvided,
    Benign,
    LikelyBenign,
    UncertainSignificance,
    LikelyPathogenic,
    Pathogenic,
}

/// Whether a variant can be acted on therapeutically.
#[derive(Clone, Copy, Debug, PartialEq, Eq, Structural)]
pub enum TherapeuticActionability {
    UnknownActionability,
    NotActionable,
    Actionable,
}

/// A variant with its classification.
pub struct VariantInterpretation {
    pub acmg_pathogenicity_classification: AcmgPathogenicityClassification,
    pub therapeutic_actionability: TherapeuticActionability,
    pub variation_descriptor: VariationDescriptor,
}

pub ghost struct VariantInterpretationView {
    pub acmg_pathogenicity_classification: AcmgPathogenicityClassification,
    pub therapeutic_actionability: TherapeuticActionability,
    pub variation_descriptor: VariationDescriptorView,
}

impl View for VariantInterpretation {
    type V = VariantInterpretationView;

    open spec fn view(&self) -> VariantInterpretationView {
        VariantInterpretationView {
            acmg_pathogenicity_classification: self.acmg_pathogenicity_classification,
            therapeutic_actionability: self.therapeutic_actionability,
            variation_descriptor: self.variation_descriptor@,
        }
    }
}

/// Builds a `VariantInterpretation`; the classification starts as not
/// provided and the actionability as unknown.
pub struct VariantInterpretationBuilder {
    interpretation: VariantInterpretation,
}

impl View for VariantInterpretationBuilder {
    type V = VariantInterpretationView;

    closed spec fn view(&self) -> VariantInterpretationView {
        self.interpretation@
    }
}

impl VariantInterpretationBuilder {
    pub fn new(descriptor: VariationDescriptor) -> (r: Self)
        ensures
            r@ == (VariantInterpretationView {
                acmg_pathogenicity_classification: AcmgPathogenicityClassification::NotProvided,
                therapeutic_actionability: TherapeuticActionability::UnknownActionability,
                variation_descriptor: descriptor@,
            }),
    {
        VariantInterpretationBuilder {
            interpretation: Self::of(descriptor, AcmgPathogenicityClassification::NotProvided),
        }
    }

    fn classified(self, acmg: AcmgPathogenicityClassification) -> (r: Self)
        ensures
            r@ == (VariantInterpretationView { acmg_pathogenicity_classification: acmg, ..self@ }),
    {
        let mut s = self;
        s.interpretation.acmg_pathogenicity_classification = acmg;
        s
    }

    fn with_actionability(self, a: TherapeuticActionability) -> (r: Self)
        ensures
            r@ == (VariantInterpretationView { therapeutic_actionability: a, ..self@ }),
    {
        let mut s = self;
        s.interpretation.therapeutic_actionability = a;
        s
    }

    pub fn acmg_not_provided(self) -> (r: Self)
        ensures
            r@ == (VariantInterpretationView {
                acmg_pathogenicity_classification: AcmgPathogenicityClassification::NotProvided,
                ..self@
            }),
    {
        self.classified(AcmgPathogenicityClassification::NotProvided)
    }

    pub fn benign(self) -> (r: Self)
        ensures
            r@ == (VariantInterpretationView {
                acmg_pathogenicity_classification: AcmgPathogenicityClassification::Benign,
                ..self@
            }),
    {
        self.classified(AcmgPathogenicityClassification::Benign)
    }

    pub fn likely_benign(self) -> (r: Self)
        ensures
            r@ == (VariantInterpretationView {
                acmg_pathogenicity_classification: AcmgPathogenicityClassification::LikelyBenign,
                ..self@
            }),
    {
        self.classified(AcmgPathogenicityClassification::LikelyBenign)
    }

    pub fn uncertain_significance(self) -> (r: Self)
        ensures
            r@ == (VariantInterpretationView {
                acmg_pathogenicity_classification:
                    AcmgPathogenicityClassification::UncertainSignificance,
                ..self@
            }),
    {
        self.classified(AcmgPathogenicityClassification::UncertainSignificance)
    }

    pub fn likely_pathogenic(self) -> (r: Self)
        ensures
            r@ == (VariantInterpretationView {
                acmg_pathogenicity_classification:
                    AcmgPathogenicityClassification::LikelyPathogenic,
                ..self@
            }),
    {
        self.classified(AcmgPathogenicityClassification::LikelyPathogenic)
    }

    pub fn pathogenic(self) -> (r: Self)
        ensures
            r@ == (VariantInterpretationView {
                acmg_pathogenicity_classification: AcmgPathogenicityClassification::Pathogenic,
                ..self@
            }),
    {
        self.classified(AcmgPathogenicityClassification::Pathogenic)
    }

    pub fn actionability_unknown(self) -> (r: Self)
        ensures
            r@ == (VariantInterpretationView {
                therapeutic_actionability: TherapeuticActionability::UnknownActionability,
                ..self@
            }),
    {
        self.with_actionability(TherapeuticActionability::UnknownActionability)
    }

    pub fn not_actionable(self) -> (r: Self)
        ensures
            r@ == (VariantInterpretationView {
                therapeutic_actionability: TherapeuticActionability::NotActionable,
                ..self@
            }),
    {
        self.with_actionability(TherapeuticActionability::NotActionable)
    }

    pub fn actionable(self) -> (r: Self)
        ensures
            r@ == (VariantInterpretationView {
                therapeutic_actionability: TherapeuticActionability::Actionable,
                ..self@
            }),
    {
        self.with_actionability(TherapeuticActionability::Actionable)
    }

    /// The interpretation with the fields set so far.
    pub fn build(self) -> (r: VariantInterpretation)
        ensures
            r@ == self@,
    {
        self.interpretation
    }

    /// A variant with a classification and unknown actionability.
    pub fn of(descriptor: VariationDescriptor, acmg: AcmgPathogenicityClassification) -> (r:
        VariantInterpretation)
        ensures
            r@ == (VariantInterpretationView {
                acmg_pathogenicity_classification: acmg,
                therapeutic_actionability: TherapeuticActionability::UnknownActionability,
                variation_descriptor: descriptor@,
            }),
    {
        Self::of_with_actionability(
            descriptor,
            acmg,
            TherapeuticActionability::UnknownActionability,
        )
    }

    /// A variant with a classification and an actionability.
    pub fn of_with_actionability(
        descriptor: VariationDescriptor,
        acmg: AcmgPathogenicityClassification,
        actionability: TherapeuticActionability,
    ) -> (r: VariantInterpretation)
        ensures
            r@ == (VariantInterpretationView {
                acmg_pathogenicity_classification: acmg,
                therapeutic_actionability: actionability,
                variation_descriptor: descriptor@,
            }),
    {
        VariantInterpretation {
            acmg_pathogenicity_classification: acmg,
            therapeutic_actionability: actionability,
            variation_descriptor: descriptor,
        }
    }
}

} // verus!

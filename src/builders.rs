use vstd::prelude::*;
use vstd::string::StringExecFns;

use crate::curie::{curie_check_outcome, curie_fault, ontology_class, OntologyClass, SuffixPolicy};
use crate::error::{Error, ErrorView};
use crate::disease::{bare_disease, Disease, DiseaseBuilder};
use crate::gene_descriptor::{bare_gene, GeneDescriptor, GeneDescriptorBuilder};
use crate::genomic_interpretation::{Call, GenomicInterpretation, InterpretationStatus};
use crate::individual::{Individual, IndividualView, KaryotypicSex, Sex};
use crate::interpretation::{Diagnosis, Interpretation, InterpretationBuilder, ProgressStatus};
use crate::meta_data::{fresh_meta_data, MetaData, MetaDataBuilder};
use crate::phenopacket::{bare_phenopacket, Phenopacket, PhenopacketBuilder};
use crate::phenotypic_feature::{
    bare_feature, PhenotypicFeature, PhenotypicFeatureBuilder, PhenotypicFeatureView,
};
use crate::time_elements::Timestamp;
use crate::variation::{
    bare_descriptor, AcmgPathogenicityClassification, TherapeuticActionability,
    VariantInterpretation, VariantInterpretationBuilder, VariantInterpretationView,
    VariationDescriptor, VariationDescriptorBuilder,
};
use crate::vcf_record::{bare_record, VcfRecord, VcfRecordBuilder};

verus! {

/// The texts of a list of strings.
pub open spec fn strings_view(v: Seq<String>) -> Seq<Seq<char>> {
    v.map_values(|s: String| s@)
}

/// A citation of an outside source, such as a publication.
#[derive(Clone, Debug)]
pub struct ExternalReference {
    pub id: String,
    pub reference: String,
    pub description: String,
}

impl View for ExternalReference {
    /// `(id, reference, description)`
    type V = (Seq<char>, Seq<char>, Seq<char>);

    open spec fn view(&self) -> Self::V {
        (self.id@, self.reference@, self.description@)
    }
}

/// Builds an `ExternalReference` one field at a time; fields not set stay
/// empty.
pub struct ExternalReferenceBuilder {
    builder: ExternalReference,
}

impl View for ExternalReferenceBuilder {
    type V = (Seq<char>, Seq<char>, Seq<char>);

    closed spec fn view(&self) -> Self::V {
        self.builder@
    }
}

impl ExternalReferenceBuilder {
    /// A builder with every field empty.
    pub fn new() -> (r: Self)
        ensures
            r@ == (Seq::<char>::empty(), Seq::<char>::empty(), Seq::<char>::empty()),
    {
        ExternalReferenceBuilder {
            builder: ExternalReference {
                id: String::new(),
                reference: String::new(),
                description: String::new(),
            },
        }
    }

    /// A reference with an id and a description, and no link.
    pub fn of(id: &str, description: &str) -> (r: ExternalReference)
        ensures
            r@ == (id@, Seq::<char>::empty(), description@),
    {
        ExternalReference {
            id: String::from_str(id),
            reference: String::new(),
            description: String::from_str(description),
        }
    }

    pub fn id(self, id: &str) -> (r: Self)
        ensures
            r@ == (id@, self@.1, self@.2),
    {
        let mut b = self.builder;
        b.id = String::from_str(id);
        ExternalReferenceBuilder { builder: b }
    }

    pub fn reference(self, reference: &str) -> (r: Self)
        ensures
            r@ == (self@.0, reference@, self@.2),
    {
        let mut b = self.builder;
        b.reference = String::from_str(reference);
        ExternalReferenceBuilder { builder: b }
    }

    pub fn description(self, description: &str) -> (r: Self)
        ensures
            r@ == (self@.0, self@.1, description@),
    {
        let mut b = self.builder;
        b.description = String::from_str(description);
        ExternalReferenceBuilder { builder: b }
    }

    /// The reference with the fields set so far.
    pub fn build(self) -> (r: ExternalReference)
        ensures
            r@ == self@,
    {
        self.builder
    }
}

/// Shortcuts that build common record parts in one call.
pub struct Builder {}

impl Builder {
    /// A VCF record with the five required fields and every other field
    /// empty.
    pub fn vcf_record(
        assembly: &str,
        chromosome: &str,
        position: u64,
        ref_allele: &str,
        alt_allele: &str,
    ) -> (r: VcfRecord)
        ensures
            r@ == bare_record(assembly@, chromosome@, position, ref_allele@, alt_allele@),
    {
        VcfRecordBuilder::of(assembly, chromosome, position, ref_allele, alt_allele)
    }

    /// An ontology class whose id is validated as a CURIE (alphanumeric
    /// suffix).
    pub fn ontology_class(id: &str, label: &str) -> (r: Result<OntologyClass, Error>)
        ensures
            match r {
                Ok(c) => curie_fault(SuffixPolicy::Alphanumeric, id@) is None && c@ == (id@, label@),
                Err(e) => curie_check_outcome(SuffixPolicy::Alphanumeric, id@) == Err::<(), ErrorView>(e@),
            },
    {
        ontology_class(id, label)
    }

    /// A reference with an id and a description, and no link.
    pub fn external_reference(id: &str, description: &str) -> (r: ExternalReference)
        ensures
            r@ == (id@, Seq::<char>::empty(), description@),
    {
        ExternalReferenceBuilder::of(id, description)
    }

    /// A gene with an id and a symbol and nothing else.
    pub fn gene_descriptor(value_id: &str, symbol: &str) -> (r: GeneDescriptor)
        ensures
            r@ == bare_gene(value_id@, symbol@),
    {
        GeneDescriptorBuilder::of(value_id, symbol)
    }

    /// An observed feature of the given type.
    pub fn phenotypic_feature_observed(feature: OntologyClass) -> (r: PhenotypicFeature)
        ensures
            r@ == bare_feature(feature@),
    {
        PhenotypicFeatureBuilder::of(feature)
    }

    /// An excluded feature of the given type.
    pub fn phenotypic_feature_excluded(feature: OntologyClass) -> (r: PhenotypicFeature)
        ensures
            r@ == (PhenotypicFeatureView { excluded: true, ..bare_feature(feature@) }),
    {
        PhenotypicFeatureBuilder::new(feature).excluded().build()
    }

    /// A disease with only its term set.
    pub fn disease(term: OntologyClass) -> (r: Disease)
        ensures
            r@ == bare_disease(term@),
    {
        DiseaseBuilder::of_term(term)
    }

    /// An individual with an id only.
    pub fn individual(id: &str) -> (r: Individual)
        ensures
            r@ == (IndividualView {
                id: id@,
                alternate_ids: Seq::empty(),
                date_of_birth: None,
                time_at_last_encounter: None,
                vital_status: None,
                sex: Sex::UnknownSex,
                karyotypic_sex: KaryotypicSex::UnknownKaryotype,
                gender: None,
                taxonomy: None,
            }),
    {
        let r = Individual {
            id: String::from_str(id),
            alternate_ids: Vec::new(),
            date_of_birth: None,
            time_at_last_encounter: None,
            vital_status: None,
            sex: Sex::UnknownSex,
            karyotypic_sex: KaryotypicSex::UnknownKaryotype,
            gender: None,
            taxonomy: None,
        };
        assert(strings_view(r.alternate_ids@) =~= Seq::<Seq<char>>::empty());
        r
    }

    /// Metadata created at `created` by `created_by`.
    pub fn meta_data(created: Timestamp, created_by: &str) -> (r: MetaData)
        ensures
            r@ == fresh_meta_data(created, created_by@),
    {
        MetaDataBuilder::from_created(created, created_by).build()
    }

    fn interpretation(identifier: &str, diagnosis: Diagnosis, status: ProgressStatus) -> (r:
        Interpretation)
        ensures
            r.id@ == identifier@,
            r.progress_status == status,
            r.diagnosis == Some(diagnosis),
            r.summary@ == Seq::<char>::empty(),
    {
        Interpretation {
            id: String::from_str(identifier),
            progress_status: status,
            diagnosis: Some(diagnosis),
            summary: String::new(),
        }
    }

    /// A solved interpretation with its diagnosis and no summary.
    pub fn solved_interpretation(identifier: &str, diagnosis: Diagnosis) -> (r: Interpretation)
        ensures
            r.id@ == identifier@,
            r.progress_status == ProgressStatus::Solved,
            r.diagnosis == Some(diagnosis),
            r.summary@ == Seq::<char>::empty(),
    {
        Self::interpretation(identifier, diagnosis, ProgressStatus::Solved)
    }

    /// An unsolved interpretation with its diagnosis and no summary.
    pub fn unsolved_interpretation(identifier: &str, diagnosis: Diagnosis) -> (r: Interpretation)
        ensures
            r.id@ == identifier@,
            r.progress_status == ProgressStatus::Unsolved,
            r.diagnosis == Some(diagnosis),
            r.summary@ == Seq::<char>::empty(),
    {
        Self::interpretation(identifier, diagnosis, ProgressStatus::Unsolved)
    }

    /// A completed interpretation with its diagnosis and no summary.
    pub fn completed_interpretation(identifier: &str, diagnosis: Diagnosis) -> (r: Interpretation)
        ensures
            r.id@ == identifier@,
            r.progress_status == ProgressStatus::Completed,
            r.diagnosis == Some(diagnosis),
            r.summary@ == Seq::<char>::empty(),
    {
        Self::interpretation(identifier, diagnosis, ProgressStatus::Completed)
    }

    /// A genomic interpretation about a gene.
    pub fn genomic_interpretation_from_gene_descriptor(
        identifier: &str,
        interpretation_status: InterpretationStatus,
        gdesc: GeneDescriptor,
    ) -> (r: GenomicInterpretation)
        ensures
            r.subject_or_biosample_id@ == identifier@,
            r.interpretation_status == interpretation_status,
            r.call == Call::Gene(gdesc),
    {
        GenomicInterpretation {
            subject_or_biosample_id: String::from_str(identifier),
            interpretation_status,
            call: Call::Gene(gdesc),
        }
    }

    /// A genomic interpretation about a variant.
    pub fn genomic_interpretation_from_variant(
        identifier: &str,
        interpretation_status: InterpretationStatus,
        variant_interpretation: VariantInterpretation,
    ) -> (r: GenomicInterpretation)
        ensures
            r.subject_or_biosample_id@ == identifier@,
            r.interpretation_status == interpretation_status,
            r.call == Call::VariantInterpretation(variant_interpretation),
    {
        GenomicInterpretation {
            subject_or_biosample_id: String::from_str(identifier),
            interpretation_status,
            call: Call::VariantInterpretation(variant_interpretation),
        }
    }

    /// A variation descriptor with an id and nothing else.
    pub fn variation_descriptor(identifier: &str) -> (r: VariationDescriptor)
        ensures
            r@ == bare_descriptor(identifier@),
    {
        VariationDescriptorBuilder::builder(identifier).build()
    }

    /// A variant with a classification and unknown actionability.
    pub fn variant_interpretation_acmg(
        acmg: AcmgPathogenicityClassification,
        variant_descriptor: VariationDescriptor,
    ) -> (r: VariantInterpretation)
        ensures
            r@ == (VariantInterpretationView {
                acmg_pathogenicity_classification: acmg,
                therapeutic_actionability: TherapeuticActionability::UnknownActionability,
                variation_descriptor: variant_descriptor@,
            }),
    {
        VariantInterpretationBuilder::of(variant_descriptor, acmg)
    }

    pub fn variant_interpretation_benign(variant_descriptor: VariationDescriptor) -> (r:
        VariantInterpretation)
        ensures
            r@ == (VariantInterpretationView {
                acmg_pathogenicity_classification: AcmgPathogenicityClassification::Benign,
                therapeutic_actionability: TherapeuticActionability::UnknownActionability,
                variation_descriptor: variant_descriptor@,
            }),
    {
        Self::variant_interpretation_acmg(AcmgPathogenicityClassification::Benign, variant_descriptor)
    }

    pub fn variant_interpretation_likely_benign(variant_descriptor: VariationDescriptor) -> (r:
        VariantInterpretation)
        ensures
            r@ == (VariantInterpretationView {
                acmg_pathogenicity_classification: AcmgPathogenicityClassification::LikelyBenign,
                therapeutic_actionability: TherapeuticActionability::UnknownActionability,
                variation_descriptor: variant_descriptor@,
            }),
    {
        Self::variant_interpretation_acmg(
            AcmgPathogenicityClassification::LikelyBenign,
            variant_descriptor,
        )
    }

    /// A variant of uncertain significance.
    pub fn variant_interpretation_vus(variant_descriptor: VariationDescriptor) -> (r:
        VariantInterpretation)
        ensures
            r@ == (VariantInterpretationView {
                acmg_pathogenicity_classification:
                    AcmgPathogenicityClassification::UncertainSignificance,
                therapeutic_actionability: TherapeuticActionability::UnknownActionability,
                variation_descriptor: variant_descriptor@,
            }),
    {
        Self::variant_interpretation_acmg(
            AcmgPathogenicityClassification::UncertainSignificance,
            variant_descriptor,
        )
    }

    pub fn variant_interpretation_likely_pathogenic(variant_descriptor: VariationDescriptor) -> (r:
        VariantInterpretation)
        ensures
            r@ == (VariantInterpretationView {
                acmg_pathogenicity_classification:
                    AcmgPathogenicityClassification::LikelyPathogenic,
                therapeutic_actionability: TherapeuticActionability::UnknownActionability,
                variation_descriptor: variant_descriptor@,
            }),
    {
        Self::variant_interpretation_acmg(
            AcmgPathogenicityClassification::LikelyPathogenic,
            variant_descriptor,
        )
    }

    pub fn variant_interpretation_pathogenic(variant_descriptor: VariationDescriptor) -> (r:
        VariantInterpretation)
        ensures
            r@ == (VariantInterpretationView {
                acmg_pathogenicity_classification: AcmgPathogenicityClassification::Pathogenic,
                therapeutic_actionability: TherapeuticActionability::UnknownActionability,
                variation_descriptor: variant_descriptor@,
            }),
    {
        Self::variant_interpretation_acmg(
            AcmgPathogenicityClassification::Pathogenic,
            variant_descriptor,
        )
    }

    /// A case report with an id and metadata and nothing else.
    pub fn phenopacket(identifier: &str, meta_data: MetaData) -> (r: Phenopacket)
        ensures
            r@ == bare_phenopacket(identifier@, meta_data@),
    {
        PhenopacketBuilder::builder(identifier, meta_data).build()
    }
}

} // verus!

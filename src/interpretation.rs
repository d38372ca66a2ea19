use vstd::prelude::*;
use vstd::string::StringExecFns;

use crate::curie::{curie_check_outcome, curie_fault, ontology_class, OntologyClass, SuffixPolicy};
use crate::error::{Error, ErrorView};
use crate::genomic_interpretation::GenomicInterpretation;

verus! {

/// A disease with the genomic interpretations that explain it.
pub struct Diagnosis {
    pub disease: OntologyClass,
    pub genomic_interpretations: Vec<GenomicInterpretation>,
}

/// Builds a `Diagnosis`.
pub struct DiagnosisBuilder {
    disease: OntologyClass,
    genomic_interpretations: Vec<GenomicInterpretation>,
}

impl DiagnosisBuilder {
    pub closed spec fn disease(&self) -> (Seq<char>, Seq<char>) {
        self.disease@
    }

    pub closed spec fn interpretations(&self) -> Seq<GenomicInterpretation> {
        self.genomic_interpretations@
    }

    pub fn new(disease: OntologyClass) -> (r: Self)
        ensures
            r.disease() == disease@,
            r.interpretations() == Seq::<GenomicInterpretation>::empty(),
    {
        DiagnosisBuilder { disease, genomic_interpretations: Vec::new() }
    }

    /// A builder for the disease with id `id`, validated as a CURIE.
    pub fn builder(id: &str, label: &str) -> (r: Result<Self, Error>)
        ensures
            match r {
                Ok(b) => curie_fault(SuffixPolicy::Alphanumeric, id@) is None && b.disease() == (
                id@, label@) && b.interpretations() == Seq::<GenomicInterpretation>::empty(),
                Err(e) => curie_check_outcome(SuffixPolicy::Alphanumeric, id@) == Err::<
                    (),
                    ErrorView,
                >(e@),
            },
    {
        let clz = ontology_class(id, label)?;
        Ok(DiagnosisBuilder::new(clz))
    }

    pub fn add_genomic_interpretation(self, interpretation: GenomicInterpretation) -> (r: Self)
        ensures
            r.disease() == self.disease(),
            r.interpretations() == self.interpretations().push(interpretation),
    {
        let mut s = self;
        s.genomic_interpretations.push(interpretation);
        s
    }

    pub fn build(self) -> (r: Diagnosis)
        ensures
            r.disease@ == self.disease(),
            r.genomic_interpretations@ == self.interpretations(),
    {
        Diagnosis { disease: self.disease, genomic_interpretations: self.genomic_interpretations }
    }
}

/// How far the interpretation of a case has come.
#[derive(Clone, Copy, Debug, PartialEq, Eq, Structural)]
pub enum ProgressStatus {
    UnknownProgress,
    InProgress,
    Completed,
    Solved,
    Unsolved,
}

/// The interpretation of a case: its progress and, once reached, its
/// diagnosis.
pub struct Interpretation {
    pub id: String,
    pub progress_status: ProgressStatus,
    pub diagnosis: Option<Diagnosis>,
    pub summary: String,
}

/// Builds an `Interpretation`.
pub struct InterpretationBuilder {
    id: String,
    progress_status: ProgressStatus,
    diagnosis: Option<Diagnosis>,
    summary: String,
}

impl InterpretationBuilder {
    pub closed spec fn spec_id(&self) -> Seq<char> {
        self.id@
    }

    pub closed spec fn spec_status(&self) -> ProgressStatus {
        self.progress_status
    }

    pub closed spec fn spec_diagnosis(&self) -> Option<Diagnosis> {
        self.diagnosis
    }

    pub closed spec fn spec_summary(&self) -> Seq<char> {
        self.summary@
    }

    /// An interpretation of unknown progress, with no diagnosis or summary.
    pub fn new(identifier: &str) -> (r: Self)
        ensures
            r.spec_id() == identifier@,
            r.spec_status() == ProgressStatus::UnknownProgress,
            r.spec_diagnosis() is None,
            r.spec_summary() == Seq::<char>::empty(),
    {
        InterpretationBuilder {
            id: String::from_str(identifier),
            progress_status: ProgressStatus::UnknownProgress,
            diagnosis: None,
            summary: String::new(),
        }
    }

    pub fn summary(self, text: &str) -> (r: Self)
        ensures
            r.spec_id() == self.spec_id(),
            r.spec_status() == self.spec_status(),
            r.spec_diagnosis() == self.spec_diagnosis(),
            r.spec_summary() == text@,
    {
        let mut s = self;
        s.summary = String::from_str(text);
        s
    }

    pub fn in_progress(self) -> (r: Self)
        ensures
            r.spec_id() == self.spec_id(),
            r.spec_status() == ProgressStatus::InProgress,
            r.spec_diagnosis() == self.spec_diagnosis(),
            r.spec_summary() == self.spec_summary(),
    {
        let mut s = self;
        s.progress_status = ProgressStatus::InProgress;
        s
    }

    fn concluded(self, status: ProgressStatus, diagnosis: Diagnosis) -> (r: Self)
        ensures
            r.spec_id() == self.spec_id(),
            r.spec_status() == status,
            r.spec_diagnosis() == Some(diagnosis),
            r.spec_summary() == self.spec_summary(),
    {
        let mut s = self;
        s.progress_status = status;
        s.diagnosis = Some(diagnosis);
        s
    }

    pub fn completed(self, diagnosis: Diagnosis) -> (r: Self)
        ensures
            r.spec_id() == self.spec_id(),
            r.spec_status() == ProgressStatus::Completed,
            r.spec_diagnosis() == Some(diagnosis),
            r.spec_summary() == self.spec_summary(),
    {
        self.concluded(ProgressStatus::Completed, diagnosis)
    }

    pub fn solved(self, diagnosis: Diagnosis) -> (r: Self)
        ensures
            r.spec_id() == self.spec_id(),
            r.spec_status() == ProgressStatus::Solved,
            r.spec_diagnosis() == Some(diagnosis),
            r.spec_summary() == self.spec_summary(),
    {
        self.concluded(ProgressStatus::Solved, diagnosis)
    }

    pub fn unsolved(self, diagnosis: Diagnosis) -> (r: Self)
        ensures
            r.spec_id() == self.spec_id(),
            r.spec_status() == ProgressStatus::Unsolved,
            r.spec_diagnosis() == Some(diagnosis),
            r.spec_summary() == self.spec_summary(),
    {
        self.concluded(ProgressStatus::Unsolved, diagnosis)
    }

    pub fn build(self) -> (r: Interpretation)
        ensures
            r.id@ == self.spec_id(),
            r.progress_status == self.spec_status(),
            r.diagnosis == self.spec_diagnosis(),
            r.summary@ == self.spec_summary(),
    {
        Interpretation {
            id: self.id,
            progress_status: self.progress_status,
            diagnosis: self.diagnosis,
            summary: self.summary,
        }
    }
}

} // verus!

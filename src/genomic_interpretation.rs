use vstd::prelude::*;
use vstd::string::StringExecFns;

use crate::error::{Error, ErrorKind, ErrorView};
use crate::gene_descriptor::GeneDescriptor;
use crate::variation::VariantInterpretation;

verus! {

/// How a gene or variant bears on the diagnosis.
#[derive(Clone, Copy, Debug, PartialEq, Eq, Structural)]
pub enum InterpretationStatus {
    UnknownStatus,
    Rejected,
    Candidate,
    Contributory,
    Causative,
}

/// What a genomic interpretation is about: a gene or a variant.
pub enum Call {
    Gene(GeneDescriptor),
    VariantInterpretation(VariantInterpretation),
}

/// A gene or variant, with its status, for one subject or biosample.
pub struct GenomicInterpretation {
    pub subject_or_biosample_id: String,
    pub interpretation_status: InterpretationStatus,
    pub call: Call,
}

/// Builds a `GenomicInterpretation`; exactly one of a gene and a variant
/// must be given, and a status other than unknown.
pub struct GenomicInterpretationBuilder {
    subject_or_biosample_id: String,
    interpretation_status: InterpretationStatus,
    gene_descriptor: Option<GeneDescriptor>,
    variant_interpretation: Option<VariantInterpretation>,
}

impl GenomicInterpretationBuilder {
    pub closed spec fn subject(&self) -> Seq<char> {
        self.subject_or_biosample_id@
    }

    pub closed spec fn status(&self) -> InterpretationStatus {
        self.interpretation_status
    }

    pub closed spec fn gene(&self) -> Option<GeneDescriptor> {
        self.gene_descriptor
    }

    pub closed spec fn variant(&self) -> Option<
        VariantInterpretation,
    > {
        self.variant_interpretation
    }

    /// A builder for `identifier`, with an unknown status and no call.
    pub fn builder(identifier: &str) -> (r: Self)
        ensures
            r.subject() == identifier@,
            r.status() == InterpretationStatus::UnknownStatus,
            r.gene() is None,
            r.variant() is None,
    {
        GenomicInterpretationBuilder {
            subject_or_biosample_id: String::from_str(identifier),
            interpretation_status: InterpretationStatus::UnknownStatus,
            gene_descriptor: None,
            variant_interpretation: None,
        }
    }

    fn with_status(self, status: InterpretationStatus) -> (r: Self)
        ensures
            r.subject() == self.subject(),
            r.status() == status,
            r.gene() == self.gene(),
            r.variant() == self.variant(),
    {
        let mut s = self;
        s.interpretation_status = status;
        s
    }

    pub fn rejected(self) -> (r: Self)
        ensures
            r.subject() == self.subject(),
            r.status() == InterpretationStatus::Rejected,
            r.gene() == self.gene(),
            r.variant() == self.variant(),
    {
        self.with_status(InterpretationStatus::Rejected)
    }

    pub fn candidate(self) -> (r: Self)
        ensures
            r.subject() == self.subject(),
            r.status() == InterpretationStatus::Candidate,
            r.gene() == self.gene(),
            r.variant() == self.variant(),
    {
        self.with_status(InterpretationStatus::Candidate)
    }

    pub fn contributory(self) -> (r: Self)
        ensures
            r.subject() == self.subject(),
            r.status() == InterpretationStatus::Contributory,
            r.gene() == self.gene(),
            r.variant() == self.variant(),
    {
        self.with_status(InterpretationStatus::Contributory)
    }

    pub fn causative(self) -> (r: Self)
        ensures
            r.subject() == self.subject(),
            r.status() == InterpretationStatus::Causative,
            r.gene() == self.gene(),
            r.variant() == self.variant(),
    {
        self.with_status(InterpretationStatus::Causative)
    }

    pub fn unknown(self) -> (r: Self)
        ensures
            r.subject() == self.subject(),
            r.status() == InterpretationStatus::UnknownStatus,
            r.gene() == self.gene(),
            r.variant() == self.variant(),
    {
        self.with_status(InterpretationStatus::UnknownStatus)
    }

    /// Names the gene; refused where a variant was given already.
    pub fn gene_descriptor(self, gdesc: GeneDescriptor) -> (r: Result<Self, Error>)
        ensures
            self.variant() is Some ==> (r matches Err(e) && e@ == ErrorView::Text(
                ErrorKind::BothGeneAndVariant,
                Seq::empty(),
            )),
            self.variant() is None ==> (r matches Ok(b) && b.subject() == self.subject()
                && b.status() == self.status() && b.gene() == Some(gdesc) && b.variant() is None),
    {
        if self.variant_interpretation.is_some() {
            return Err(Error::double_oneof());
        }
        let mut s = self;
        s.gene_descriptor = Some(gdesc);
        Ok(s)
    }

    /// Names the variant; refused where a gene was given already.
    pub fn variant_interpretation(
        self,
        vinterp: VariantInterpretation,
    ) -> (r: Result<Self, Error>)
        ensures
            self.gene() is Some ==> (r matches Err(e) && e@ == ErrorView::Text(
                ErrorKind::BothGeneAndVariant,
                Seq::empty(),
            )),
            self.gene() is None ==> (r matches Ok(b) && b.subject() == self.subject() && b.status()
                == self.status() && b.gene() is None && b.variant() == Some(vinterp)),
    {
        if self.gene_descriptor.is_some() {
            return Err(Error::double_oneof());
        }
        let mut s = self;
        s.variant_interpretation = Some(vinterp);
        Ok(s)
    }

    /// The interpretation. Refused without a status, then without a call;
    /// a gene, where one was given, is the call.
    pub fn build(self) -> (r: Result<GenomicInterpretation, Error>)
        ensures
            self.status() == InterpretationStatus::UnknownStatus ==> (r matches Err(e) && e@
                == ErrorView::Text(ErrorKind::NoInterpretationStatus, Seq::empty())),
            self.status() != InterpretationStatus::UnknownStatus && self.gene() is None
                && self.variant() is None ==> (r matches Err(e) && e@ == ErrorView::Text(
                ErrorKind::NoGeneOrVariant,
                Seq::empty(),
            )),
            self.status() != InterpretationStatus::UnknownStatus && self.gene() is Some ==> (
            r matches Ok(g) && g.subject_or_biosample_id@ == self.subject()
                && g.interpretation_status == self.status() && g.call == Call::Gene(
                self.gene()->0,
            )),
            self.status() != InterpretationStatus::UnknownStatus && self.gene() is None
                && self.variant() is Some ==> (r matches Ok(g) && g.subject_or_biosample_id@
                == self.subject() && g.interpretation_status == self.status() && g.call
                == Call::VariantInterpretation(self.variant()->0)),
    {
        if self.interpretation_status == InterpretationStatus::UnknownStatus {
            return Err(Error::no_status());
        }
        match self.gene_descriptor {
            Some(gene) => Ok(
                GenomicInterpretation {
                    subject_or_biosample_id: self.subject_or_biosample_id,
                    interpretation_status: self.interpretation_status,
                    call: Call::Gene(gene),
                },
            ),
            None => match self.variant_interpretation {
                Some(variant) => Ok(
                    GenomicInterpretation {
                        subject_or_biosample_id: self.subject_or_biosample_id,
                        interpretation_status: self.interpretation_status,
                        call: Call::VariantInterpretation(variant),
                    },
                ),
                None => Err(Error::no_call()),
            },
        }
    }
}

} // verus!

//! Construction and validation of clinical case-report records.
//!
//! At the core are the CURIE validator (`curie`) and the temporal parser
//! (`time_elements`), which classifies a text as an instant, an ISO-8601
//! duration, a gestational age or an onset category (`onset`). Around them
//! stand fixed vocabularies (`vocabulary`, `resources`) and builders that
//! assemble the parts of a case report: the subject (`individual`), its
//! features and diseases, genes and variants, their interpretation, the
//! record's metadata and the report itself (`phenopacket`).

pub mod builders;
pub mod curie;
pub mod digits;
pub mod disease;
pub mod error;
pub mod gene_descriptor;
pub mod genomic_interpretation;
pub mod individual;
pub mod interpretation;
pub mod meta_data;
pub mod onset;
pub mod phenopacket;
pub mod phenotypic_feature;
pub mod resources;
pub mod time_elements;
pub mod variation;
pub mod vcf_record;
pub mod vocabulary;

use vstd::prelude::*;
use vstd::string::StringExecFns;

verus! {

/// The version of UCUM that `Resources::ucum` names.
pub const DEFAULT_UCUM_VERSION: &'static str = "2.1";

/// The version of ChEBI in common use.
pub const DEFAULT_CHEBI_VERSION: &'static str = "241";

/// An ontology or terminology that a record's terms are drawn from.
#[derive(Clone, Debug)]
pub struct Resource {
    pub id: String,
    pub name: String,
    pub namespace_prefix: String,
    pub iri_prefix: String,
    pub url: String,
    pub version: String,
}

impl View for Resource {
    /// `(id, name, namespace_prefix, iri_prefix, url, version)`
    type V = (Seq<char>, Seq<char>, Seq<char>, Seq<char>, Seq<char>, Seq<char>);

    open spec fn view(&self) -> Self::V {
        (self.id@, self.name@, self.namespace_prefix@, self.iri_prefix@, self.url@, self.version@)
    }
}

/// Descriptions of the resources in common use, each at a given version.
pub struct Resources;

impl Resources {
    fn base_resource(
        id: &str,
        name: &str,
        prefix: &str,
        iri_prefix: &str,
        url: &str,
        version: &str,
    ) -> (r: Resource)
        ensures
            r@ == (id@, name@, prefix@, iri_prefix@, url@, version@),
    {
        Resource {
            id: String::from_str(id),
            name: String::from_str(name),
            namespace_prefix: String::from_str(prefix),
            iri_prefix: String::from_str(iri_prefix),
            url: String::from_str(url),
            version: String::from_str(version),
        }
    }

    pub fn hpo_version(version: &str) -> (r: Resource)
        ensures
            r@ == ("hp"@, "human phenotype ontology"@, "HP"@, "http://purl.obolibrary.org/obo/HP_"@, "http://purl.obolibrary.org/obo/hp.owl"@, version@),
    {
        Self::base_resource(
            "hp",
            "human phenotype ontology",
            "HP",
            "http://purl.obolibrary.org/obo/HP_",
            "http://purl.obolibrary.org/obo/hp.owl",
            version,
        )
    }

    pub fn geno_version(version: &str) -> (r: Resource)
        ensures
            r@ == ("geno"@, "Genotype Ontology"@, "GENO"@, "http://purl.obolibrary.org/obo/GENO_"@, "http://purl.obolibrary.org/obo/geno.owl"@, version@),
    {
        Self::base_resource(
            "geno",
            "Genotype Ontology",
            "GENO",
            "http://purl.obolibrary.org/obo/GENO_",
            "http://purl.obolibrary.org/obo/geno.owl",
            version,
        )
    }

    pub fn pato_version(version: &str) -> (r: Resource)
        ensures
            r@ == ("pato"@, "PhenotypicFeature And Trait Ontology"@, "PATO"@, "http://purl.obolibrary.org/obo/PATO_"@, "http://purl.obolibrary.org/obo/pato.owl"@, version@),
    {
        Self::base_resource(
            "pato",
            "PhenotypicFeature And Trait Ontology",
            "PATO",
            "http://purl.obolibrary.org/obo/PATO_",
            "http://purl.obolibrary.org/obo/pato.owl",
            version,
        )
    }

    pub fn efo_version(version: &str) -> (r: Resource)
        ensures
            r@ == ("efo"@, "Experimental Factor Ontology"@, "EFO"@, "http://purl.obolibrary.org/obo/EFO_"@, "http://www.ebi.ac.uk/efo/efo.owl"@, version@),
    {
        Self::base_resource(
            "efo",
            "Experimental Factor Ontology",
            "EFO",
            "http://purl.obolibrary.org/obo/EFO_",
            "http://www.ebi.ac.uk/efo/efo.owl",
            version,
        )
    }

    pub fn eco_version(version: &str) -> (r: Resource)
        ensures
            r@ == ("eco"@, "Evidence & Conclusion Ontology (ECO)"@, "ECO"@, "http://purl.obolibrary.org/obo/ECO_"@, "http://purl.obolibrary.org/obo/eco.owl"@, version@),
    {
        Self::base_resource(
            "eco",
            "Evidence & Conclusion Ontology (ECO)",
            "ECO",
            "http://purl.obolibrary.org/obo/ECO_",
            "http://purl.obolibrary.org/obo/eco.owl",
            version,
        )
    }

    pub fn cl_version(version: &str) -> (r: Resource)
        ensures
            r@ == ("cl"@, "Cell Ontology"@, "CL"@, "http://purl.obolibrary.org/obo/CL_"@, "http://purl.obolibrary.org/obo/cl.owl"@, version@),
    {
        Self::base_resource(
            "cl",
            "Cell Ontology",
            "CL",
            "http://purl.obolibrary.org/obo/CL_",
            "http://purl.obolibrary.org/obo/cl.owl",
            version,
        )
    }

    pub fn ncit_version(version: &str) -> (r: Resource)
        ensures
            r@ == ("ncit"@, "NCI Thesaurus"@, "NCIT"@, "http://purl.obolibrary.org/obo/NCIT_"@, "http://purl.obolibrary.org/obo/ncit.owl"@, version@),
    {
        Self::base_resource(
            "ncit",
            "NCI Thesaurus",
            "NCIT",
            "http://purl.obolibrary.org/obo/NCIT_",
            "http://purl.obolibrary.org/obo/ncit.owl",
            version,
        )
    }

    pub fn mondo_version(version: &str) -> (r: Resource)
        ensures
            r@ == ("mondo"@, "Mondo Disease Ontology"@, "MONDO"@, "http://purl.obolibrary.org/obo/MONDO_"@, "http://purl.obolibrary.org/obo/mondo.obo"@, version@),
    {
        Self::base_resource(
            "mondo",
            "Mondo Disease Ontology",
            "MONDO",
            "http://purl.obolibrary.org/obo/MONDO_",
            "http://purl.obolibrary.org/obo/mondo.obo",
            version,
        )
    }

    pub fn uberon_version(version: &str) -> (r: Resource)
        ensures
            r@ == ("uberon"@, "Uber-anatomy ontology"@, "UBERON"@, "http://purl.obolibrary.org/obo/UBERON_"@, "http://purl.obolibrary.org/obo/uberon.owl"@, version@),
    {
        Self::base_resource(
            "uberon",
            "Uber-anatomy ontology",
            "UBERON",
            "http://purl.obolibrary.org/obo/UBERON_",
            "http://purl.obolibrary.org/obo/uberon.owl",
            version,
        )
    }

    pub fn ncbi_taxon_version(version: &str) -> (r: Resource)
        ensures
            r@ == ("ncbitaxon"@, "NCBI organismal classification"@, "NCBITaxon"@, "http://purl.obolibrary.org/obo/NCBITaxon_"@, "http://purl.obolibrary.org/obo/ncbitaxon.owl"@, version@),
    {
        Self::base_resource(
            "ncbitaxon",
            "NCBI organismal classification",
            "NCBITaxon",
            "http://purl.obolibrary.org/obo/NCBITaxon_",
            "http://purl.obolibrary.org/obo/ncbitaxon.owl",
            version,
        )
    }

    pub fn so_version(version: &str) -> (r: Resource)
        ensures
            r@ == ("so"@, "Sequence types and features ontology"@, "SO"@, "http://purl.obolibrary.org/obo/SO_"@, "http://purl.obolibrary.org/obo/so.owl"@, version@),
    {
        Self::base_resource(
            "so",
            "Sequence types and features ontology",
            "SO",
            "http://purl.obolibrary.org/obo/SO_",
            "http://purl.obolibrary.org/obo/so.owl",
            version,
        )
    }

    pub fn uo_version(version: &str) -> (r: Resource)
        ensures
            r@ == ("uo"@, "Units of measurement ontology"@, "UO"@, "http://purl.obolibrary.org/obo/UO_"@, "http://purl.obolibrary.org/obo/uo.owl"@, version@),
    {
        Self::base_resource(
            "uo",
            "Units of measurement ontology",
            "UO",
            "http://purl.obolibrary.org/obo/UO_",
            "http://purl.obolibrary.org/obo/uo.owl",
            version,
        )
    }

    pub fn ucum_version(version: &str) -> (r: Resource)
        ensures
            r@ == ("ucum"@, "Unified Code for Units of Measure"@, "UCUM"@, "https://units-of-measurement.org/"@, "https://ucum.org"@, version@),
    {
        Self::base_resource(
            "ucum",
            "Unified Code for Units of Measure",
            "UCUM",
            "https://units-of-measurement.org/",
            "https://ucum.org",
            version,
        )
    }

    pub fn loinc_version(version: &str) -> (r: Resource)
        ensures
            r@ == ("loinc"@, "Logical Observation Identifiers Names and Codes"@, "LOINC"@, "https://loinc.org/"@, "https://loinc.org"@, version@),
    {
        Self::base_resource(
            "loinc",
            "Logical Observation Identifiers Names and Codes",
            "LOINC",
            "https://loinc.org/",
            "https://loinc.org",
            version,
        )
    }

    pub fn drug_central_version(version: &str) -> (r: Resource)
        ensures
            r@ == ("drugcentral"@, "Drug Central"@, "DrugCentral"@, "https://drugcentral.org/drugcard/"@, "https://drugcentral.org/"@, version@),
    {
        Self::base_resource(
            "drugcentral",
            "Drug Central",
            "DrugCentral",
            "https://drugcentral.org/drugcard/",
            "https://drugcentral.org/",
            version,
        )
    }

    pub fn omim_version(version: &str) -> (r: Resource)
        ensures
            r@ == ("omim"@, "An Online Catalog of Human Genes and Genetic Disorders"@, "OMIM"@, "https://www.omim.org/entry/"@, "https://www.omim.org"@, version@),
    {
        Self::base_resource(
            "omim",
            "An Online Catalog of Human Genes and Genetic Disorders",
            "OMIM",
            "https://www.omim.org/entry/",
            "https://www.omim.org",
            version,
        )
    }

    pub fn chebi_version(version: &str) -> (r: Resource)
        ensures
            r@ == ("chebi"@, "Chemical Entities of Biological Interest"@, "CHEBI"@, "https://purl.obolibrary.org/obo/CHEBI_"@, "https://www.ebi.ac.uk/chebi"@, version@),
    {
        Self::base_resource(
            "chebi",
            "Chemical Entities of Biological Interest",
            "CHEBI",
            "https://purl.obolibrary.org/obo/CHEBI_",
            "https://www.ebi.ac.uk/chebi",
            version,
        )
    }

    /// UCUM at its default version.
    pub fn ucum() -> (r: Resource)
        ensures
            r@ == (
                "ucum"@,
                "Unified Code for Units of Measure"@,
                "UCUM"@,
                "https://units-of-measurement.org/"@,
                "https://ucum.org"@,
                DEFAULT_UCUM_VERSION@,
            ),
    {
        Self::ucum_version(DEFAULT_UCUM_VERSION)
    }
}

/// A variant written in one of the usual notations.
#[derive(Clone, Debug)]
pub struct Expression {
    pub syntax: String,
    pub value: String,
    pub version: String,
}

impl View for Expression {
    /// `(syntax, value, version)`
    type V = (Seq<char>, Seq<char>, Seq<char>);

    open spec fn view(&self) -> Self::V {
        (self.syntax@, self.value@, self.version@)
    }
}

/// Expressions of a variant in the usual notations.
pub struct Expressions;

impl Expressions {
    fn expression(syntax: &str, value: &str) -> (r: Expression)
        ensures
            r@ == (syntax@, value@, Seq::<char>::empty()),
    {
        Expression { syntax: String::from_str(syntax), value: String::from_str(value), version: String::new() }
    }

    /// An HGVS cDNA expression (such as `NM_004006.1:c.3>T`).
    pub fn hgvs_cdna(hgvs_expression: &str) -> (r: Expression)
        ensures
            r@ == ("hgvs.c"@, hgvs_expression@, Seq::<char>::empty()),
    {
        Self::expression("hgvs.c", hgvs_expression)
    }

    /// An HGVS genomic expression (such as `NC_000001.11:g.27549219del`).
    pub fn hgvs_genomic(hgvs_expression: &str) -> (r: Expression)
        ensures
            r@ == ("hgvs.g"@, hgvs_expression@, Seq::<char>::empty()),
    {
        Self::expression("hgvs.g", hgvs_expression)
    }

    /// A transcript reference (such as `NM_000321.2`).
    pub fn transcript_reference(value: &str) -> (r: Expression)
        ensures
            r@ == ("transcript_reference"@, value@, Seq::<char>::empty()),
    {
        Self::expression("transcript_reference", value)
    }
}

} // verus!

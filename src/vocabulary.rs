use vstd::prelude::*;
use vstd::string::StringExecFns;

use crate::curie::OntologyClass;

verus! {

/// A term of a fixed vocabulary, taken as it stands (no validation).
fn term(id: &str, label: &str) -> (r: OntologyClass)
    ensures
        r@ == (id@, label@),
{
    OntologyClass { id: String::from_str(id), label: String::from_str(label) }
}

/// Allelic states of the genotype ontology.
pub struct AllelicState;

impl AllelicState {
    /// Heterozygous state.
    pub fn heterozygous() -> (r: OntologyClass)
        ensures
            r@ == ("GENO:0000135"@, "heterozygous"@),
    {
        term("GENO:0000135", "heterozygous")
    }

    /// Homozygous state.
    pub fn homozygous() -> (r: OntologyClass)
        ensures
            r@ == ("GENO:0000136"@, "homozygous"@),
    {
        term("GENO:0000136", "homozygous")
    }

    /// Hemizygous state.
    pub fn hemizygous() -> (r: OntologyClass)
        ensures
            r@ == ("GENO:0000134"@, "hemizygous"@),
    {
        term("GENO:0000134", "hemizygous")
    }

    /// Unspecified zygosity.
    pub fn unspecified_zygosity() -> (r: OntologyClass)
        ensures
            r@ == ("GENO:0000137"@, "unspecified zygosity"@),
    {
        term("GENO:0000137", "unspecified zygosity")
    }
}

/// Units of measure (UCUM).
pub struct Unit;

impl Unit {
    pub fn degree() -> (r: OntologyClass)
        ensures
            r@ == ("UCUM:degree"@, "degree (plane angle)"@),
    {
        term("UCUM:degree", "degree (plane angle)")
    }

    pub fn diopter() -> (r: OntologyClass)
        ensures
            r@ == ("UCUM:[diop]"@, "diopter"@),
    {
        term("UCUM:[diop]", "diopter")
    }

    pub fn gram() -> (r: OntologyClass)
        ensures
            r@ == ("UCUM:g"@, "gram"@),
    {
        term("UCUM:g", "gram")
    }

    pub fn gram_per_kilogram() -> (r: OntologyClass)
        ensures
            r@ == ("UCUM:g.kg-1"@, "gram per kilogram"@),
    {
        term("UCUM:g.kg-1", "gram per kilogram")
    }

    pub fn kilogram() -> (r: OntologyClass)
        ensures
            r@ == ("UCUM:kg"@, "kilogram"@),
    {
        term("UCUM:kg", "kilogram")
    }

    pub fn liter() -> (r: OntologyClass)
        ensures
            r@ == ("UCUM:L"@, "liter"@),
    {
        term("UCUM:L", "liter")
    }

    pub fn meter() -> (r: OntologyClass)
        ensures
            r@ == ("UCUM:m"@, "meter"@),
    {
        term("UCUM:m", "meter")
    }

    pub fn microgram() -> (r: OntologyClass)
        ensures
            r@ == ("UCUM:ug"@, "microgram"@),
    {
        term("UCUM:ug", "microgram")
    }

    pub fn microgram_per_deciliter() -> (r: OntologyClass)
        ensures
            r@ == ("UCUM:ug.dL-1"@, "microgram per deciliter"@),
    {
        term("UCUM:ug.dL-1", "microgram per deciliter")
    }

    pub fn microgram_per_liter() -> (r: OntologyClass)
        ensures
            r@ == ("UCUM:ug.L-1"@, "microgram per liter"@),
    {
        term("UCUM:ug.L-1", "microgram per liter")
    }

    pub fn microliter() -> (r: OntologyClass)
        ensures
            r@ == ("UCUM:uL"@, "microliter"@),
    {
        term("UCUM:uL", "microliter")
    }

    pub fn micrometer() -> (r: OntologyClass)
        ensures
            r@ == ("UCUM:um"@, "micrometer"@),
    {
        term("UCUM:um", "micrometer")
    }

    pub fn milligram() -> (r: OntologyClass)
        ensures
            r@ == ("UCUM:mg"@, "milligram"@),
    {
        term("UCUM:mg", "milligram")
    }

    pub fn milligram_per_day() -> (r: OntologyClass)
        ensures
            r@ == ("UCUM:mg.d-1"@, "milligram per day"@),
    {
        term("UCUM:mg.d-1", "milligram per day")
    }

    pub fn milligram_per_deciliter() -> (r: OntologyClass)
        ensures
            r@ == ("UCUM:mg.dL-1"@, "milligram per deciliter"@),
    {
        term("UCUM:mg.dL-1", "milligram per deciliter")
    }

    pub fn mg_per_kg() -> (r: OntologyClass)
        ensures
            r@ == ("UCUM:mg.kg-1"@, "milligram per kilogram"@),
    {
        term("UCUM:mg.kg-1", "milligram per kilogram")
    }

    pub fn milliliter() -> (r: OntologyClass)
        ensures
            r@ == ("UCUM:mL"@, "milliliter"@),
    {
        term("UCUM:mL", "milliliter")
    }

    pub fn millimeter() -> (r: OntologyClass)
        ensures
            r@ == ("UCUM:mm"@, "millimeter"@),
    {
        term("UCUM:mm", "millimeter")
    }

    pub fn mm_hg() -> (r: OntologyClass)
        ensures
            r@ == ("UCUM:mm[Hg]"@, "millimetres of mercury"@),
    {
        term("UCUM:mm[Hg]", "millimetres of mercury")
    }

    pub fn millimole() -> (r: OntologyClass)
        ensures
            r@ == ("UCUM:mmol"@, "millimole"@),
    {
        term("UCUM:mmol", "millimole")
    }

    pub fn mole() -> (r: OntologyClass)
        ensures
            r@ == ("UCUM:mol"@, "mole"@),
    {
        term("UCUM:mol", "mole")
    }

    pub fn mole_per_liter() -> (r: OntologyClass)
        ensures
            r@ == ("UCUM:mol.L-1"@, "mole per liter"@),
    {
        term("UCUM:mol.L-1", "mole per liter")
    }

    pub fn mole_per_milliliter() -> (r: OntologyClass)
        ensures
            r@ == ("UCUM:mol.mL-1"@, "mole per milliliter"@),
    {
        term("UCUM:mol.mL-1", "mole per milliliter")
    }

    pub fn enzyme_unit_per_liter() -> (r: OntologyClass)
        ensures
            r@ == ("UCUM:U.L-1"@, "enzyme unit per liter"@),
    {
        term("UCUM:U.L-1", "enzyme unit per liter")
    }
}

/// Laterality of a finding: the right side.
pub fn right() -> (r: OntologyClass)
    ensures
        r@ == ("HP:0012834"@, "Right"@),
{
    term("HP:0012834", "Right")
}

/// Laterality of a finding: the left side.
pub fn left() -> (r: OntologyClass)
    ensures
        r@ == ("HP:0012835"@, "Left"@),
{
    term("HP:0012835", "Left")
}

/// Laterality of a finding: one side.
pub fn unilateral() -> (r: OntologyClass)
    ensures
        r@ == ("HP:0012833"@, "Unilateral"@),
{
    term("HP:0012833", "Unilateral")
}

/// Laterality of a finding: both sides.
pub fn bilateral() -> (r: OntologyClass)
    ensures
        r@ == ("HP:0012832"@, "Bilateral"@),
{
    term("HP:0012832", "Bilateral")
}

} // verus!

//! The ACNH flower species: each wraps a genotype and resolves its phenotype
//! through the family's color tables.

use crate::flower::ACNHFlowerType;
use crate::flower::ACNHPhenotypes;
use crate::flower::Flower;
use crate::flower::FlowerData;
use crate::flower::FlowerType;
use crate::flower::Phenotype;
use crate::flower::acnh_of;
use crate::flower::flower_char;
use crate::flower::get_acnh_flower_color;
use crate::flower::phenotype_matches_style;
use crate::flower::spec_flower_style;
use crate::genetics::Gene;
use crate::genetics::GeneType;
use crate::genetics::Genotype;
use crate::genetics::lemma_pow3_increases;
use crate::genetics::pow3;
use crate::terminal::TextBlueprint;
use vstd::prelude::*;

verus! {

/// Resolves the phenotype of one flower: the genotype's lookup index picks a
/// color name from the species' table, the name picks a terminal color, and
/// the species picks the character. Any step without a value gives `None`.
fn resolve_phenotype(ft: FlowerType, genotype: &Genotype, phenotypes: &ACNHPhenotypes) -> (r:
    Option<Phenotype>)
    ensures
        phenotype_matches_style(r, spec_flower_style(ft, genotype@, *phenotypes)),
{
    let print = genotype.gene_print();
    if print.len() > 20 {
        return None;
    }
    proof {
        assert(genotype@.len() == print@.len());
        lemma_pow3_increases(genotype@.len() as nat, 20nat);
        assert(pow3(20nat) == 3486784401) by {
            reveal_with_fuel(pow3, 21);
        }
        assert(usize::MAX >= 0xffffffffusize);
    }
    let index = match genotype.into_index() {
        Some(i) => i,
        None => {
            return None;
        },
    };
    let species = match ft {
        FlowerType::ACNH(f) => f,
    };
    let name = match phenotypes.get_color(species, index) {
        Some(n) => n,
        None => {
            return None;
        },
    };
    let color = match get_acnh_flower_color(name.as_str()) {
        Some(c) => c,
        None => {
            return None;
        },
    };
    let character = match species {
        ACNHFlowerType::Rose => '@',
        ACNHFlowerType::Mum => '*',
        ACNHFlowerType::Hyacinth => '^',
    };
    proof {
        assert(species == acnh_of(ft));
        assert(character == flower_char(ft));
    }
    Some(Phenotype::new(TextBlueprint::new().with_text_color(color), character))
}

fn mendelian_print(n: usize) -> (r: Vec<GeneType>)
    ensures
        r@.len() == n,
        forall|i: int| 0 <= i < n ==> #[trigger] r@[i] == GeneType::Mendelian,
{
    let mut print: Vec<GeneType> = Vec::new();
    let mut i: usize = 0;
    while i < n
        invariant
            i <= n,
            print@.len() == i,
            forall|k: int| 0 <= k < i ==> #[trigger] print@[k] == GeneType::Mendelian,
        decreases n - i,
    {
        print.push(GeneType::Mendelian);
        i = i + 1;
    }
    print
}

/// An ACNH rose: four Mendelian genes.
#[derive(Debug, Clone, PartialEq, Eq)]
pub struct ACNHRose(pub Genotype);

impl Flower for ACNHRose {
    open spec fn spec_genotype(&self) -> Seq<Gene> {
        self.0@
    }

    open spec fn spec_flower_type(&self) -> FlowerType {
        FlowerType::ACNH(ACNHFlowerType::Rose)
    }

    open spec fn spec_species_name(&self) -> Seq<char> {
        "Rose (acnh)"@
    }

    open spec fn spec_print(&self) -> Seq<GeneType> {
        Seq::new(4, |i: int| GeneType::Mendelian)
    }

    fn info(&self) -> (d: FlowerData) {
        let d = FlowerData::new(
            String::from_str("Rose (acnh)"),
            mendelian_print(4),
            FlowerType::ACNH(ACNHFlowerType::Rose),
        );
        proof {
            assert(d.spec_gene_print() =~= self.spec_print());
        }
        d
    }

    fn genotype(&self) -> (g: Genotype) {
        self.0.clone()
    }

    fn phenotype(&self, phenotypes: &ACNHPhenotypes) -> (r: Option<Phenotype>) {
        resolve_phenotype(FlowerType::ACNH(ACNHFlowerType::Rose), &self.0, phenotypes)
    }
}

/// An ACNH mum: three Mendelian genes.
#[derive(Debug, Clone, PartialEq, Eq)]
pub struct ACNHMum(pub Genotype);

impl Flower for ACNHMum {
    open spec fn spec_genotype(&self) -> Seq<Gene> {
        self.0@
    }

    open spec fn spec_flower_type(&self) -> FlowerType {
        FlowerType::ACNH(ACNHFlowerType::Mum)
    }

    open spec fn spec_species_name(&self) -> Seq<char> {
        "Mum (acnh)"@
    }

    open spec fn spec_print(&self) -> Seq<GeneType> {
        Seq::new(3, |i: int| GeneType::Mendelian)
    }

    fn info(&self) -> (d: FlowerData) {
        let d = FlowerData::new(
            String::from_str("Mum (acnh)"),
            mendelian_print(3),
            FlowerType::ACNH(ACNHFlowerType::Mum),
        );
        proof {
            assert(d.spec_gene_print() =~= self.spec_print());
        }
        d
    }

    fn genotype(&self) -> (g: Genotype) {
        self.0.clone()
    }

    fn phenotype(&self, phenotypes: &ACNHPhenotypes) -> (r: Option<Phenotype>) {
        resolve_phenotype(FlowerType::ACNH(ACNHFlowerType::Mum), &self.0, phenotypes)
    }
}

/// An ACNH hyacinth: three Mendelian genes.
#[derive(Debug, Clone, PartialEq, Eq)]
pub struct ACNHHyacinth(pub Genotype);

impl Flower for ACNHHyacinth {
    open spec fn spec_genotype(&self) -> Seq<Gene> {
        self.0@
    }

    open spec fn spec_flower_type(&self) -> FlowerType {
        FlowerType::ACNH(ACNHFlowerType::Hyacinth)
    }

    open spec fn spec_species_name(&self) -> Seq<char> {
        "Hyacinth (acnh)"@
    }

    open spec fn spec_print(&self) -> Seq<GeneType> {
        Seq::new(3, |i: int| GeneType::Mendelian)
    }

    fn info(&self) -> (d: FlowerData) {
        let d = FlowerData::new(
            String::from_str("Hyacinth (acnh)"),
            mendelian_print(3),
            FlowerType::ACNH(ACNHFlowerType::Hyacinth),
        );
        proof {
            assert(d.spec_gene_print() =~= self.spec_print());
        }
        d
    }

    fn genotype(&self) -> (g: Genotype) {
        self.0.clone()
    }

    fn phenotype(&self, phenotypes: &ACNHPhenotypes) -> (r: Option<Phenotype>) {
        resolve_phenotype(FlowerType::ACNH(ACNHFlowerType::Hyacinth), &self.0, phenotypes)
    }
}

} // verus!

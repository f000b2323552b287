//! Flowers: species data, phenotype resolution, and the trait every flower
//! kind implements.
//!
//! A flower owns a [`Genotype`]; its visible trait is resolved by encoding
//! the genotype as a lookup index, reading the color name out of the species'
//! table, and mapping that name to a terminal color.

use crate::genetics::Gene;
use crate::genetics::GeneType;
use crate::genetics::Genotype;
use crate::genetics::all_mendelian;
use crate::genetics::gene_print_of;
use crate::genetics::index_of_genes;
use crate::terminal::AnsiColor;
use crate::terminal::TextBlueprint;
use crate::terminal::dec_digits;
use crate::terminal::lemma_text_color_only_ansi;
use crate::terminal::push_char;
use vstd::prelude::*;

verus! {

/// The flower species of the ACNH family.
#[derive(Debug, Clone, Copy)]
pub enum ACNHFlowerType {
    Rose,
    Mum,
    Hyacinth,
}

/// A flower species, grouped by family.
#[derive(Debug, Clone, Copy)]
pub enum FlowerType {
    ACNH(ACNHFlowerType),
}

/// A resolved visible trait: a styled single character.
#[derive(Debug, Clone)]
pub struct Phenotype {
    blueprint: TextBlueprint,
    character: char,
}

impl Phenotype {
    /// The styling of the phenotype.
    pub closed spec fn spec_blueprint(self) -> TextBlueprint {
        self.blueprint
    }

    /// The character drawn for the phenotype.
    pub closed spec fn spec_character(self) -> char {
        self.character
    }

    /// Pairs a styling with the character it is applied to.
    pub fn new(blueprint: TextBlueprint, character: char) -> (r: Self)
        ensures
            r.spec_blueprint() == blueprint,
            r.spec_character() == character,
    {
        Phenotype { blueprint, character }
    }

    /// The styled character as one printable string.
    pub fn to_string(&self) -> (r: String)
        ensures
            r@ == self.spec_blueprint().ansi_spec() + seq![self.spec_character()] + "\x1B[0m"@,
    {
        let mut cs = String::new();
        push_char(&mut cs, self.character);
        proof {
            assert(cs@ =~= seq![self.spec_character()]);
        }
        self.blueprint.apply(cs.as_str())
    }
}

/// A species description: display name, genetic schema, and family tag.
#[derive(Debug, Clone)]
pub struct FlowerData {
    name: String,
    flower_type: FlowerType,
    gene_print: Vec<GeneType>,
}

impl FlowerData {
    /// The species' display name.
    pub closed spec fn spec_name(self) -> Seq<char> {
        self.name@
    }

    /// The species' gene-print.
    pub closed spec fn spec_gene_print(self) -> Seq<GeneType> {
        self.gene_print@
    }

    /// The species' family tag.
    pub closed spec fn spec_flower_type(self) -> FlowerType {
        self.flower_type
    }

    /// Bundles a species description.
    pub fn new(name: String, gene_print: Vec<GeneType>, flower_type: FlowerType) -> (r: Self)
        ensures
            r.spec_name() == name@,
            r.spec_gene_print() == gene_print@,
            r.spec_flower_type() == flower_type,
    {
        FlowerData { name, flower_type, gene_print }
    }

    /// The species' display name.
    pub fn name(&self) -> (r: String)
        ensures
            r@ == self.spec_name(),
    {
        self.name.clone()
    }

    /// The species' gene-print.
    pub fn gene_print(&self) -> (r: Vec<GeneType>)
        ensures
            r@ == self.spec_gene_print(),
    {
        let r = self.gene_print.clone();
        proof {
            assert(r@ =~= self.gene_print@);
        }
        r
    }

    /// The species' family tag.
    pub fn flower_type(&self) -> (r: FlowerType)
        ensures
            r == self.spec_flower_type(),
    {
        self.flower_type
    }
}

/// The color names of all ACNH species, indexed by lookup index.
#[derive(Debug, Clone)]
pub struct ACNHPhenotypes {
    acnh_rose: Vec<String>,
    acnh_mum: Vec<String>,
    acnh_hyacinth: Vec<String>,
}

/// The color-name table of one ACNH species.
pub open spec fn color_table(ph: ACNHPhenotypes, flower_type: ACNHFlowerType) -> Seq<Seq<char>> {
    match flower_type {
        ACNHFlowerType::Rose => ph.spec_rose(),
        ACNHFlowerType::Mum => ph.spec_mum(),
        ACNHFlowerType::Hyacinth => ph.spec_hyacinth(),
    }
}

impl ACNHPhenotypes {
    /// The rose color names.
    pub closed spec fn spec_rose(self) -> Seq<Seq<char>> {
        self.acnh_rose.deep_view()
    }

    /// The mum color names.
    pub closed spec fn spec_mum(self) -> Seq<Seq<char>> {
        self.acnh_mum.deep_view()
    }

    /// The hyacinth color names.
    pub closed spec fn spec_hyacinth(self) -> Seq<Seq<char>> {
        self.acnh_hyacinth.deep_view()
    }

    /// Bundles the three species' color-name tables.
    pub fn new(acnh_rose: Vec<String>, acnh_mum: Vec<String>, acnh_hyacinth: Vec<String>) -> (r:
        Self)
        ensures
            r.spec_rose() == acnh_rose.deep_view(),
            r.spec_mum() == acnh_mum.deep_view(),
            r.spec_hyacinth() == acnh_hyacinth.deep_view(),
    {
        ACNHPhenotypes { acnh_rose, acnh_mum, acnh_hyacinth }
    }

    /// The color name of the given species at the given lookup index; `None`
    /// past the table's end.
    pub fn get_color(&self, flower_type: ACNHFlowerType, index: usize) -> (r: Option<String>)
        ensures
            r is Some <==> index < color_table(*self, flower_type).len(),
            r matches Some(s) ==> s@ == color_table(*self, flower_type)[index as int],
    {
        let table = match flower_type {
            ACNHFlowerType::Rose => &self.acnh_rose,
            ACNHFlowerType::Mum => &self.acnh_mum,
            ACNHFlowerType::Hyacinth => &self.acnh_hyacinth,
        };
        if index < table.len() {
            Some(table[index].clone())
        } else {
            None
        }
    }
}

/// The terminal color code an ACNH color name stands for, if any.
pub open spec fn acnh_color_code(name: Seq<char>) -> Option<u8> {
    if name == "Red"@ {
        Some(160u8)
    } else if name == "White"@ {
        Some(7u8)
    } else if name == "Purple"@ {
        Some(90u8)
    } else if name == "Yellow"@ {
        Some(221u8)
    } else if name == "Pink"@ {
        Some(211u8)
    } else if name == "Orange"@ {
        Some(208u8)
    } else if name == "Black"@ {
        Some(8u8)
    } else if name == "Blue"@ {
        Some(27u8)
    } else if name == "Green"@ {
        Some(106u8)
    } else {
        None
    }
}

fn str_eq(a: &str, b: &str) -> (r: bool)
    ensures
        r == (a@ == b@),
{
    let sa = String::from_str(a);
    let sb = String::from_str(b);
    sa.eq(&sb)
}

/// The terminal color an ACNH color name stands for, if any.
pub fn get_acnh_flower_color(color_name: &str) -> (r: Option<AnsiColor>)
    ensures
        r is Some <==> acnh_color_code(color_name@) is Some,
        r matches Some(c) ==> acnh_color_code(color_name@) == Some(c.spec_code()),
{
    if str_eq(color_name, "Red") {
        Some(AnsiColor::from_code(160))
    } else if str_eq(color_name, "White") {
        Some(AnsiColor::from_code(7))
    } else if str_eq(color_name, "Purple") {
        Some(AnsiColor::from_code(90))
    } else if str_eq(color_name, "Yellow") {
        Some(AnsiColor::from_code(221))
    } else if str_eq(color_name, "Pink") {
        Some(AnsiColor::from_code(211))
    } else if str_eq(color_name, "Orange") {
        Some(AnsiColor::from_code(208))
    } else if str_eq(color_name, "Black") {
        Some(AnsiColor::from_code(8))
    } else if str_eq(color_name, "Blue") {
        Some(AnsiColor::from_code(27))
    } else if str_eq(color_name, "Green") {
        Some(AnsiColor::from_code(106))
    } else {
        None
    }
}

/// The character drawn for a species.
pub open spec fn flower_char(ft: FlowerType) -> char {
    match ft {
        FlowerType::ACNH(ACNHFlowerType::Rose) => '@',
        FlowerType::ACNH(ACNHFlowerType::Mum) => '*',
        FlowerType::ACNH(ACNHFlowerType::Hyacinth) => '^',
    }
}

/// The ACNH species of a family-tagged species.
pub open spec fn acnh_of(ft: FlowerType) -> ACNHFlowerType {
    match ft {
        FlowerType::ACNH(f) => f,
    }
}

/// A genotype short enough for its lookup index to fit the machine word.
pub open spec fn index_fits(genes: Seq<Gene>) -> bool {
    genes.len() <= 20
}

/// The style a flower resolves to: the color code and character to draw, or
/// `None` when the genotype has no index, the index is past the table, or
/// the table holds an unknown color name.
pub open spec fn spec_flower_style(ft: FlowerType, genes: Seq<Gene>, ph: ACNHPhenotypes) -> Option<
    (u8, char),
> {
    if all_mendelian(genes) && index_fits(genes) {
        let table = color_table(ph, acnh_of(ft));
        if index_of_genes(genes) < table.len() {
            match acnh_color_code(table[index_of_genes(genes)]) {
                Some(code) => Some((code, flower_char(ft))),
                None => None,
            }
        } else {
            None
        }
    } else {
        None
    }
}

/// Whether `r` is the phenotype that the style demands: the right character,
/// the right text color, and nothing else styled.
pub open spec fn phenotype_matches_style(r: Option<Phenotype>, style: Option<(u8, char)>) -> bool {
    match style {
        Some(style) => {
            &&& r is Some
            &&& r.unwrap().spec_character() == style.1
            &&& match r.unwrap().spec_blueprint().spec_text_color() {
                Some(c) => c.spec_code() == style.0,
                None => false,
            }
            &&& r.unwrap().spec_blueprint().spec_background_color() is None
            &&& r.unwrap().spec_blueprint().spec_effects() == Seq::<crate::terminal::AnsiEffect>::empty()
        },
        None => r is None,
    }
}

/// The exact text a resolved flower renders as: the escape that sets its
/// color, the species' character, and the resetting escape.
pub open spec fn styled_flower_string(code: u8, ch: char) -> Seq<char> {
    "\x1B["@ + "38;5;"@ + dec_digits(code as int) + "m"@ + seq![ch] + "\x1B[0m"@
}

/// What every flower kind offers: its species data, its genotype, and its
/// resolved phenotype; crossing delegates to the genotypes.
pub trait Flower {
    /// The genes this flower carries.
    spec fn spec_genotype(&self) -> Seq<Gene>;

    /// The species tag of this flower kind.
    spec fn spec_flower_type(&self) -> FlowerType;

    /// The species' display name.
    spec fn spec_species_name(&self) -> Seq<char>;

    /// The gene-print of the species.
    spec fn spec_print(&self) -> Seq<GeneType>;

    /// This flower kind's species description.
    fn info(&self) -> (d: FlowerData)
        ensures
            d.spec_name() == self.spec_species_name(),
            d.spec_gene_print() == self.spec_print(),
            d.spec_flower_type() == self.spec_flower_type(),
    ;

    /// A copy of this flower's genotype.
    fn genotype(&self) -> (g: Genotype)
        ensures
            g@ == self.spec_genotype(),
    ;

    /// The phenotype this flower resolves to against the given tables.
    fn phenotype(&self, phenotypes: &ACNHPhenotypes) -> (r: Option<Phenotype>)
        ensures
            phenotype_matches_style(
                r,
                spec_flower_style(self.spec_flower_type(), self.spec_genotype(), *phenotypes),
            ),
    ;

    /// The phenotype rendered as a printable string.
    fn to_string(&self, phenotypes: &ACNHPhenotypes) -> (r: Option<String>)
        ensures
            match spec_flower_style(self.spec_flower_type(), self.spec_genotype(), *phenotypes) {
                Some(style) => r matches Some(s) && s@ == styled_flower_string(style.0, style.1),
                None => r is None,
            },
    {
        match self.phenotype(phenotypes) {
            Some(p) => {
                let s = p.to_string();
                proof {
                    let style = spec_flower_style(
                        self.spec_flower_type(),
                        self.spec_genotype(),
                        *phenotypes,
                    ).unwrap();
                    lemma_text_color_only_ansi(p.spec_blueprint(), style.0);
                    assert(s@ =~= styled_flower_string(style.0, style.1));
                }
                Some(s)
            },
            None => None,
        }
    }

    /// Whether this flower may be crossed with `other`.
    fn can_cross(&self, other: &Self) -> (r: bool) where Self: Sized
        ensures
            r == (gene_print_of(self.spec_genotype()) == gene_print_of(other.spec_genotype())),
    {
        self.genotype().can_cross(&other.genotype())
    }

    /// Crosses this flower's genotype with `other`'s; `None` when the two
    /// gene-prints differ.
    fn cross(&self, other: &Self) -> (r: Option<Genotype>) where Self: Sized
        ensures
            r is Some <==> gene_print_of(self.spec_genotype()) == gene_print_of(
                other.spec_genotype(),
            ),
    {
        self.genotype().cross_with(&other.genotype())
    }
}

} // verus!

//! Genetic encoding and crossbreeding engine.
//!
//! Three inheritance models back a single [`Gene`] sum type: the classic
//! two-allele Mendelian model, a blood-type-like model over three antigen
//! alleles, and a four-allele "quadruplet" model whose state is the count of
//! dominant alleles. A [`Genotype`] is an ordered sequence of genes; two
//! genotypes may be crossed exactly when their gene-prints (the per-position
//! sequence of [`GeneType`] tags) are equal, and an all-Mendelian genotype
//! encodes to a base-3 lookup index, most significant digit first.

use vstd::prelude::*;

verus! {

/// Classifier for the three inheritance models.
#[derive(Debug, Clone, Copy, PartialEq, Eq, Structural)]
pub enum GeneType {
    Mendelian,
    Bloodlike,
    Quadruplet,
}

/// A diploid two-allele gene: each allele is a binary dominant/recessive flag,
/// and the state is the order-insensitive combination of the pair.
#[derive(Debug, Clone, Copy, PartialEq, Eq, Structural)]
pub enum MendelianGene {
    HomozygousRecessive,
    Heterozygous,
    HomozygousDominant,
}

/// The dominant/recessive allele pair that a Mendelian state stands for.
pub open spec fn mendelian_alleles(g: MendelianGene) -> Seq<bool> {
    match g {
        MendelianGene::HomozygousDominant => seq![true, true],
        MendelianGene::Heterozygous => seq![true, false],
        MendelianGene::HomozygousRecessive => seq![false, false],
    }
}

/// The Mendelian state derived, order-insensitively, from an allele pair.
pub open spec fn mendelian_of_alleles(a: bool, b: bool) -> MendelianGene {
    if a && b {
        MendelianGene::HomozygousDominant
    } else if !a && !b {
        MendelianGene::HomozygousRecessive
    } else {
        MendelianGene::Heterozygous
    }
}

/// Ordinal used by the base-3 lookup-index encoding.
pub open spec fn mendelian_ordinal(g: MendelianGene) -> int {
    match g {
        MendelianGene::HomozygousRecessive => 0,
        MendelianGene::Heterozygous => 1,
        MendelianGene::HomozygousDominant => 2,
    }
}

/// The offspring of two Mendelian genes once each parent has contributed the
/// allele at the drawn position (`i` from `a`, `j` from `b`).
pub open spec fn mendelian_offspring(a: MendelianGene, b: MendelianGene, i: int, j: int) -> MendelianGene {
    mendelian_of_alleles(mendelian_alleles(a)[i], mendelian_alleles(b)[j])
}

impl MendelianGene {
    /// Ordinal of the state: recessive 0, heterozygous 1, dominant 2.
    pub fn into_usize(&self) -> (r: usize)
        ensures
            r == mendelian_ordinal(*self),
    {
        match self {
            MendelianGene::HomozygousDominant => 2,
            MendelianGene::Heterozygous => 1,
            MendelianGene::HomozygousRecessive => 0,
        }
    }

    /// Derives the state from an allele pair, order-insensitively.
    pub fn from_bools(bools: [bool; 2]) -> (r: Self)
        ensures
            r == mendelian_of_alleles(bools@[0], bools@[1]),
    {
        if bools[0] && bools[1] {
            MendelianGene::HomozygousDominant
        } else if !bools[0] && !bools[1] {
            MendelianGene::HomozygousRecessive
        } else {
            MendelianGene::Heterozygous
        }
    }

    /// Decomposes the state into its allele pair.
    pub fn to_bools(&self) -> (r: [bool; 2])
        ensures
            r@ == mendelian_alleles(*self),
    {
        match self {
            MendelianGene::HomozygousDominant => [true, true],
            MendelianGene::Heterozygous => [true, false],
            MendelianGene::HomozygousRecessive => [false, false],
        }
    }
}

/// One allele of the blood-type-like model.
#[derive(Debug, Clone, Copy, PartialEq, Eq, Structural)]
pub enum BloodlikeAllele {
    AntigenA,
    AntigenB,
    NoAntigen,
}

/// A diploid gene over the three antigen alleles, with the six states of
/// ABO-style blood typing.
#[derive(Debug, Clone, Copy, PartialEq, Eq, Structural)]
pub enum BloodlikeGene {
    BloodHomozygousA,
    BloodHeterozygousA,
    BloodHomozygousB,
    BloodHeterozygousB,
    BloodAB,
    BloodO,
}

/// The antigen allele pair that a blood-like state stands for.
pub open spec fn bloodlike_alleles(g: BloodlikeGene) -> Seq<BloodlikeAllele> {
    match g {
        BloodlikeGene::BloodHomozygousA => seq![BloodlikeAllele::AntigenA, BloodlikeAllele::AntigenA],
        BloodlikeGene::BloodHeterozygousA => seq![BloodlikeAllele::AntigenA, BloodlikeAllele::NoAntigen],
        BloodlikeGene::BloodHomozygousB => seq![BloodlikeAllele::AntigenB, BloodlikeAllele::AntigenB],
        BloodlikeGene::BloodHeterozygousB => seq![BloodlikeAllele::AntigenB, BloodlikeAllele::NoAntigen],
        BloodlikeGene::BloodAB => seq![BloodlikeAllele::AntigenA, BloodlikeAllele::AntigenB],
        BloodlikeGene::BloodO => seq![BloodlikeAllele::NoAntigen, BloodlikeAllele::NoAntigen],
    }
}

/// The blood-like state derived, order-insensitively, from an allele pair:
/// both antigens present give AB, a lone antigen beside `NoAntigen` gives the
/// matching heterozygous state, and no antigen at all gives O.
pub open spec fn bloodlike_of_alleles(x: BloodlikeAllele, y: BloodlikeAllele) -> BloodlikeGene {
    if x == BloodlikeAllele::AntigenA && y == BloodlikeAllele::AntigenA {
        BloodlikeGene::BloodHomozygousA
    } else if x == BloodlikeAllele::AntigenB && y == BloodlikeAllele::AntigenB {
        BloodlikeGene::BloodHomozygousB
    } else if x == BloodlikeAllele::NoAntigen && y == BloodlikeAllele::NoAntigen {
        BloodlikeGene::BloodO
    } else if x == BloodlikeAllele::AntigenA || y == BloodlikeAllele::AntigenA {
        if x == BloodlikeAllele::AntigenB || y == BloodlikeAllele::AntigenB {
            BloodlikeGene::BloodAB
        } else {
            BloodlikeGene::BloodHeterozygousA
        }
    } else {
        BloodlikeGene::BloodHeterozygousB
    }
}

/// The offspring of two blood-like genes once each parent has contributed the
/// allele at the drawn position.
pub open spec fn bloodlike_offspring(a: BloodlikeGene, b: BloodlikeGene, i: int, j: int) -> BloodlikeGene {
    bloodlike_of_alleles(bloodlike_alleles(a)[i], bloodlike_alleles(b)[j])
}

impl BloodlikeGene {
    fn to_alleles(&self) -> (r: [BloodlikeAllele; 2])
        ensures
            r@ == bloodlike_alleles(*self),
    {
        match self {
            BloodlikeGene::BloodHomozygousA => [BloodlikeAllele::AntigenA, BloodlikeAllele::AntigenA],
            BloodlikeGene::BloodHeterozygousA => [BloodlikeAllele::AntigenA, BloodlikeAllele::NoAntigen],
            BloodlikeGene::BloodHomozygousB => [BloodlikeAllele::AntigenB, BloodlikeAllele::AntigenB],
            BloodlikeGene::BloodHeterozygousB => [BloodlikeAllele::AntigenB, BloodlikeAllele::NoAntigen],
            BloodlikeGene::BloodAB => [BloodlikeAllele::AntigenA, BloodlikeAllele::AntigenB],
            BloodlikeGene::BloodO => [BloodlikeAllele::NoAntigen, BloodlikeAllele::NoAntigen],
        }
    }

    fn from_alleles(alleles: [BloodlikeAllele; 2]) -> (r: Self)
        ensures
            r == bloodlike_of_alleles(alleles@[0], alleles@[1]),
    {
        let x = alleles[0];
        let y = alleles[1];
        if x == BloodlikeAllele::AntigenA && y == BloodlikeAllele::AntigenA {
            BloodlikeGene::BloodHomozygousA
        } else if x == BloodlikeAllele::AntigenB && y == BloodlikeAllele::AntigenB {
            BloodlikeGene::BloodHomozygousB
        } else if x == BloodlikeAllele::NoAntigen && y == BloodlikeAllele::NoAntigen {
            BloodlikeGene::BloodO
        } else if x == BloodlikeAllele::AntigenA || y == BloodlikeAllele::AntigenA {
            if x == BloodlikeAllele::AntigenB || y == BloodlikeAllele::AntigenB {
                BloodlikeGene::BloodAB
            } else {
                BloodlikeGene::BloodHeterozygousA
            }
        } else {
            BloodlikeGene::BloodHeterozygousB
        }
    }
}

/// A gene of four independent dominant/recessive alleles; the state is the
/// count of dominant alleles, from four (homozygous dominant) to none
/// (homozygous recessive).
#[derive(Debug, Clone, Copy, PartialEq, Eq, Structural)]
pub enum QuadrupletGene {
    HomozygousDominant,
    SemihomozygousDominant,
    Heterozygous,
    SemihomozygousRecessive,
    HomozygousRecessive,
}

/// The four-allele set that a quadruplet state stands for.
pub open spec fn quadruplet_alleles(g: QuadrupletGene) -> Seq<bool> {
    match g {
        QuadrupletGene::HomozygousDominant => seq![true, true, true, true],
        QuadrupletGene::SemihomozygousDominant => seq![true, true, true, false],
        QuadrupletGene::Heterozygous => seq![true, true, false, false],
        QuadrupletGene::SemihomozygousRecessive => seq![true, false, false, false],
        QuadrupletGene::HomozygousRecessive => seq![false, false, false, false],
    }
}

/// Number of dominant (true) alleles in a set.
pub open spec fn count_dominant(s: Seq<bool>) -> int
    decreases s.len(),
{
    if s.len() == 0 {
        0
    } else {
        count_dominant(s.drop_last()) + if s.last() { 1int } else { 0int }
    }
}

/// The quadruplet state with the given count of dominant alleles.
pub open spec fn quadruplet_of_count(c: int) -> QuadrupletGene {
    if c >= 4 {
        QuadrupletGene::HomozygousDominant
    } else if c == 3 {
        QuadrupletGene::SemihomozygousDominant
    } else if c == 2 {
        QuadrupletGene::Heterozygous
    } else if c == 1 {
        QuadrupletGene::SemihomozygousRecessive
    } else {
        QuadrupletGene::HomozygousRecessive
    }
}

/// The quadruplet state derived, order-insensitively, from a four-allele set.
pub open spec fn quadruplet_of_alleles(s: Seq<bool>) -> QuadrupletGene {
    quadruplet_of_count(count_dominant(s))
}

/// A valid draw of two distinct positions out of a parent's four alleles.
pub open spec fn quadruplet_draw_ok(i1: int, i2: int) -> bool {
    0 <= i1 < 4 && 0 <= i2 < 4 && i1 != i2
}

/// The offspring of two quadruplet genes once each parent has contributed the
/// two alleles at its drawn positions.
pub open spec fn quadruplet_offspring(
    a: QuadrupletGene,
    b: QuadrupletGene,
    i1: int,
    i2: int,
    j1: int,
    j2: int,
) -> QuadrupletGene {
    quadruplet_of_alleles(
        seq![
            quadruplet_alleles(a)[i1],
            quadruplet_alleles(a)[i2],
            quadruplet_alleles(b)[j1],
            quadruplet_alleles(b)[j2],
        ],
    )
}

impl QuadrupletGene {
    /// Decomposes the state into its four-allele set.
    pub fn to_alleles(&self) -> (r: [bool; 4])
        ensures
            r@ == quadruplet_alleles(*self),
    {
        match self {
            QuadrupletGene::HomozygousDominant => [true, true, true, true],
            QuadrupletGene::SemihomozygousDominant => [true, true, true, false],
            QuadrupletGene::Heterozygous => [true, true, false, false],
            QuadrupletGene::SemihomozygousRecessive => [true, false, false, false],
            QuadrupletGene::HomozygousRecessive => [false, false, false, false],
        }
    }

    /// Derives the state from a four-allele set by counting dominant alleles.
    pub fn from_alleles(alleles: [bool; 4]) -> (r: Self)
        ensures
            r == quadruplet_of_alleles(alleles@),
    {
        let mut count: usize = 0;
        if alleles[0] {
            count = count + 1;
        }
        if alleles[1] {
            count = count + 1;
        }
        if alleles[2] {
            count = count + 1;
        }
        if alleles[3] {
            count = count + 1;
        }
        proof {
            lemma_count_dominant4(alleles@);
        }
        if count == 4 {
            QuadrupletGene::HomozygousDominant
        } else if count == 3 {
            QuadrupletGene::SemihomozygousDominant
        } else if count == 2 {
            QuadrupletGene::Heterozygous
        } else if count == 1 {
            QuadrupletGene::SemihomozygousRecessive
        } else {
            QuadrupletGene::HomozygousRecessive
        }
    }
}

/// The dominant-allele count of a four-allele set is the sum of its four flags.
pub proof fn lemma_count_dominant4(s: Seq<bool>)
    requires
        s.len() == 4,
    ensures
        count_dominant(s) == (if s[0] { 1int } else { 0int }) + (if s[1] { 1int } else { 0int })
            + (if s[2] { 1int } else { 0int }) + (if s[3] { 1int } else { 0int }),
{
    assert(s.drop_last() =~= seq![s[0], s[1], s[2]]);
    assert(seq![s[0], s[1], s[2]].drop_last() =~= seq![s[0], s[1]]);
    assert(seq![s[0], s[1]].drop_last() =~= seq![s[0]]);
    assert(seq![s[0]].drop_last() =~= Seq::<bool>::empty());
    assert(count_dominant(Seq::<bool>::empty()) == 0);
    assert(count_dominant(seq![s[0]]) == if s[0] { 1int } else { 0int });
    assert(count_dominant(seq![s[0], s[1]])
        == count_dominant(seq![s[0]]) + if s[1] { 1int } else { 0int });
    assert(count_dominant(seq![s[0], s[1], s[2]])
        == count_dominant(seq![s[0], s[1]]) + if s[2] { 1int } else { 0int });
    assert(count_dominant(s)
        == count_dominant(seq![s[0], s[1], s[2]]) + if s[3] { 1int } else { 0int });
}

#[verifier::external_type_specification]
#[verifier::external_body]
pub struct ExThreadRng(rand::rngs::ThreadRng);

/// Relies on rand::rng: hands out the thread-local random generator.
#[verifier::external_body]
fn fresh_rng() -> rand::rngs::ThreadRng {
    rand::rng()
}

/// Relies on rand's RngExt::random_range: a uniformly distributed value in
/// the given range, which must not be empty.
#[verifier::external_body]
fn rand_below(rng: &mut rand::rngs::ThreadRng, n: usize) -> (r: usize)
    requires
        1 <= n,
    ensures
        r < n,
{
    <rand::rngs::ThreadRng as rand::RngExt>::random_range(rng, 0..n)
}

impl MendelianGene {
    fn random(rng: &mut rand::rngs::ThreadRng) -> Self {
        // Punnett-square weighting: of the four equally likely allele pairs,
        // two are heterozygous and one is each homozygous state.
        let k = rand_below(rng, 4);
        if k < 2 {
            MendelianGene::Heterozygous
        } else if k == 2 {
            MendelianGene::HomozygousDominant
        } else {
            MendelianGene::HomozygousRecessive
        }
    }

    fn cross(&self, other: &Self, rng: &mut rand::rngs::ThreadRng) -> (r: Self)
        ensures
            exists|i: int, j: int|
                0 <= i < 2 && 0 <= j < 2 && r == mendelian_offspring(*self, *other, i, j),
            *self == MendelianGene::HomozygousDominant && *other == MendelianGene::HomozygousDominant
                ==> r == MendelianGene::HomozygousDominant,
            *self == MendelianGene::HomozygousRecessive && *other == MendelianGene::HomozygousRecessive
                ==> r == MendelianGene::HomozygousRecessive,
            *self == MendelianGene::HomozygousDominant && *other == MendelianGene::HomozygousRecessive
                ==> r == MendelianGene::Heterozygous,
            *self == MendelianGene::HomozygousRecessive && *other == MendelianGene::HomozygousDominant
                ==> r == MendelianGene::Heterozygous,
    {
        let i = rand_below(rng, 2);
        let j = rand_below(rng, 2);
        let b1 = self.to_bools()[i];
        let b2 = other.to_bools()[j];
        let r = Self::from_bools([b1, b2]);
        proof {
            assert(r == mendelian_offspring(*self, *other, i as int, j as int));
        }
        r
    }
}

impl BloodlikeGene {
    fn random(rng: &mut rand::rngs::ThreadRng) -> Self {
        // Weighted as the nine equally likely ordered antigen pairs fall:
        // one of each homozygous state and O, two of each heterozygous state
        // and of AB.
        let k = rand_below(rng, 9);
        if k == 0 {
            BloodlikeGene::BloodHomozygousA
        } else if k <= 2 {
            BloodlikeGene::BloodHeterozygousA
        } else if k == 3 {
            BloodlikeGene::BloodHomozygousB
        } else if k <= 5 {
            BloodlikeGene::BloodHeterozygousB
        } else if k <= 7 {
            BloodlikeGene::BloodAB
        } else {
            BloodlikeGene::BloodO
        }
    }

    fn cross(&self, other: &Self, rng: &mut rand::rngs::ThreadRng) -> (r: Self)
        ensures
            exists|i: int, j: int|
                0 <= i < 2 && 0 <= j < 2 && r == bloodlike_offspring(*self, *other, i, j),
            *self == BloodlikeGene::BloodHomozygousA && *other == BloodlikeGene::BloodO
                ==> r == BloodlikeGene::BloodHeterozygousA,
            *self == BloodlikeGene::BloodHomozygousB && *other == BloodlikeGene::BloodO
                ==> r == BloodlikeGene::BloodHeterozygousB,
            *self == BloodlikeGene::BloodHomozygousA && *other == BloodlikeGene::BloodHomozygousB
                ==> r == BloodlikeGene::BloodAB,
    {
        let i = rand_below(rng, 2);
        let j = rand_below(rng, 2);
        let a1 = self.to_alleles()[i];
        let a2 = other.to_alleles()[j];
        let r = Self::from_alleles([a1, a2]);
        proof {
            assert(r == bloodlike_offspring(*self, *other, i as int, j as int));
        }
        r
    }
}

impl QuadrupletGene {
    /// Crosses two quadruplet genes: each parent contributes two of its four
    /// alleles, drawn without replacement, and the offspring's state is the
    /// dominant-allele count of the combined set.
    pub fn cross(&self, other: &Self, rng: &mut rand::rngs::ThreadRng) -> (r: Self)
        ensures
            exists|i1: int, i2: int, j1: int, j2: int|
                quadruplet_draw_ok(i1, i2) && quadruplet_draw_ok(j1, j2)
                    && r == quadruplet_offspring(*self, *other, i1, i2, j1, j2),
            *self == QuadrupletGene::HomozygousDominant && *other == QuadrupletGene::HomozygousDominant
                ==> r == QuadrupletGene::HomozygousDominant,
            *self == QuadrupletGene::HomozygousRecessive && *other == QuadrupletGene::HomozygousRecessive
                ==> r == QuadrupletGene::HomozygousRecessive,
    {
        let a = self.to_alleles();
        let b = other.to_alleles();
        let i1 = rand_below(rng, 4);
        let t1 = rand_below(rng, 3);
        let i2 = if t1 >= i1 { t1 + 1 } else { t1 };
        let j1 = rand_below(rng, 4);
        let t2 = rand_below(rng, 3);
        let j2 = if t2 >= j1 { t2 + 1 } else { t2 };
        let r = Self::from_alleles([a[i1], a[i2], b[j1], b[j2]]);
        proof {
            lemma_count_dominant4(seq![a@[i1 as int], a@[i2 as int], b@[j1 as int], b@[j2 as int]]);
            assert(r == quadruplet_offspring(*self, *other, i1 as int, i2 as int, j1 as int, j2 as int));
        }
        r
    }

    /// Draws a random quadruplet gene from four independent fair alleles.
    pub fn random(rng: &mut rand::rngs::ThreadRng) -> Self {
        let bools = [
            rand_below(rng, 2) == 1,
            rand_below(rng, 2) == 1,
            rand_below(rng, 2) == 1,
            rand_below(rng, 2) == 1,
        ];
        Self::from_alleles(bools)
    }
}

/// One heritable slot, backed by exactly one of the three allele models.
#[derive(Debug, Clone, Copy, PartialEq, Eq, Structural)]
pub enum Gene {
    Mendelian(MendelianGene),
    Bloodlike(BloodlikeGene),
    Quadruplet(QuadrupletGene),
}

/// The model tag of a gene.
pub open spec fn gene_type_of(g: Gene) -> GeneType {
    match g {
        Gene::Mendelian(_) => GeneType::Mendelian,
        Gene::Bloodlike(_) => GeneType::Bloodlike,
        Gene::Quadruplet(_) => GeneType::Quadruplet,
    }
}

/// Whether `c` is a possible offspring of crossing `a` with `b`: the parents
/// share a variant and some draw of parental alleles yields `c`.
pub open spec fn gene_offspring_ok(a: Gene, b: Gene, c: Gene) -> bool {
    match (a, b) {
        (Gene::Mendelian(x), Gene::Mendelian(y)) => exists|i: int, j: int|
            0 <= i < 2 && 0 <= j < 2 && c == Gene::Mendelian(mendelian_offspring(x, y, i, j)),
        (Gene::Bloodlike(x), Gene::Bloodlike(y)) => exists|i: int, j: int|
            0 <= i < 2 && 0 <= j < 2 && c == Gene::Bloodlike(bloodlike_offspring(x, y, i, j)),
        (Gene::Quadruplet(x), Gene::Quadruplet(y)) => exists|i1: int, i2: int, j1: int, j2: int|
            quadruplet_draw_ok(i1, i2) && quadruplet_draw_ok(j1, j2)
                && c == Gene::Quadruplet(quadruplet_offspring(x, y, i1, i2, j1, j2)),
        _ => false,
    }
}

impl Gene {
    /// Draws a random gene of the given kind.
    pub fn random(gene_type: GeneType, rng: &mut rand::rngs::ThreadRng) -> (g: Gene)
        ensures
            gene_type_of(g) == gene_type,
    {
        match gene_type {
            GeneType::Mendelian => Gene::Mendelian(MendelianGene::random(rng)),
            GeneType::Bloodlike => Gene::Bloodlike(BloodlikeGene::random(rng)),
            GeneType::Quadruplet => Gene::Quadruplet(QuadrupletGene::random(rng)),
        }
    }

    /// The model tag of this gene.
    pub fn gene_type(&self) -> (t: GeneType)
        ensures
            t == gene_type_of(*self),
    {
        match self {
            Gene::Mendelian(_) => GeneType::Mendelian,
            Gene::Bloodlike(_) => GeneType::Bloodlike,
            Gene::Quadruplet(_) => GeneType::Quadruplet,
        }
    }

    /// Crosses two genes of the same variant; genes of different variants are
    /// incompatible and yield `None`.
    pub fn cross_with(&self, other: &Self, rng: &mut rand::rngs::ThreadRng) -> (r: Option<Self>)
        ensures
            r is Some <==> gene_type_of(*self) == gene_type_of(*other),
            r matches Some(c) ==> gene_offspring_ok(*self, *other, c)
                && gene_type_of(c) == gene_type_of(*self),
    {
        match self {
            Gene::Mendelian(g) => {
                if let Gene::Mendelian(o) = other {
                    Some(Gene::Mendelian(g.cross(o, rng)))
                } else {
                    None
                }
            },
            Gene::Bloodlike(g) => {
                if let Gene::Bloodlike(o) = other {
                    Some(Gene::Bloodlike(g.cross(o, rng)))
                } else {
                    None
                }
            },
            Gene::Quadruplet(g) => {
                if let Gene::Quadruplet(o) = other {
                    Some(Gene::Quadruplet(g.cross(o, rng)))
                } else {
                    None
                }
            },
        }
    }

    /// Ordinal of a Mendelian gene; `None` for the other variants.
    pub fn into_usize(&self) -> (r: Option<usize>)
        ensures
            r is Some <==> *self is Mendelian,
            *self matches Gene::Mendelian(m) ==> r == Some(mendelian_ordinal(m) as usize),
    {
        if let Gene::Mendelian(m) = *self {
            Some(m.into_usize())
        } else {
            None
        }
    }
}

impl GeneType {
    /// Draws a random gene of this kind.
    pub fn get_random(&self, rng: &mut rand::rngs::ThreadRng) -> (g: Gene)
        ensures
            gene_type_of(g) == *self,
    {
        Gene::random(*self, rng)
    }
}

/// All of the genes of one organism, in species order.
#[derive(Debug, PartialEq, Eq)]
pub struct Genotype {
    genes: Vec<Gene>,
}

impl Clone for Genotype {
    /// An equal copy of the genotype.
    fn clone(&self) -> (r: Self)
        ensures
            r@ == self@,
    {
        let r = Genotype { genes: self.genes.clone() };
        proof {
            assert(r.genes@ =~= self.genes@);
        }
        r
    }
}

impl View for Genotype {
    type V = Seq<Gene>;

    closed spec fn view(&self) -> Seq<Gene> {
        self.genes@
    }
}

/// The gene-print of a gene sequence: its per-position model tags.
pub open spec fn gene_print_of(s: Seq<Gene>) -> Seq<GeneType> {
    s.map_values(|g: Gene| gene_type_of(g))
}

/// Whether every gene of the sequence is Mendelian.
pub open spec fn all_mendelian(s: Seq<Gene>) -> bool {
    forall|i: int| 0 <= i < s.len() ==> s[i] is Mendelian
}

/// 3 to the `n`th power.
pub open spec fn pow3(n: nat) -> nat
    decreases n,
{
    if n == 0 {
        1
    } else {
        3 * pow3((n - 1) as nat)
    }
}

/// The base-3 value of a digit sequence, most significant digit first.
pub open spec fn base3_value(digits: Seq<int>) -> int
    decreases digits.len(),
{
    if digits.len() == 0 {
        0
    } else {
        base3_value(digits.drop_last()) * 3 + digits.last()
    }
}

/// The lookup index of an all-Mendelian gene sequence: each state's ordinal
/// is a base-3 digit, position 0 most significant.
pub open spec fn index_of_genes(s: Seq<Gene>) -> int {
    base3_value(s.map_values(|g: Gene| gene_digit(g)))
}

/// The base-3 digit a gene contributes to the lookup index.
pub open spec fn gene_digit(g: Gene) -> int {
    match g {
        Gene::Mendelian(m) => mendelian_ordinal(m),
        _ => 0,
    }
}

impl Genotype {
    /// The gene-print of this genotype.
    pub open spec fn spec_gene_print(self) -> Seq<GeneType> {
        gene_print_of(self@)
    }

    /// Whether this genotype and `other` have equal gene-prints.
    pub open spec fn spec_can_cross(self, other: Genotype) -> bool {
        self.spec_gene_print() == other.spec_gene_print()
    }

    /// Wraps a gene sequence; conformance to a species schema is the caller's
    /// concern.
    pub fn new(genes: Vec<Gene>) -> (r: Self)
        ensures
            r@ == genes@,
    {
        Genotype { genes }
    }

    /// Builds a fresh random genotype conforming to the given gene-print.
    pub fn new_random(gene_print: Vec<GeneType>) -> (r: Self)
        ensures
            r.spec_gene_print() == gene_print@,
    {
        let mut rng = fresh_rng();
        let mut genes: Vec<Gene> = Vec::new();
        let n = gene_print.len();
        let mut i: usize = 0;
        while i < n
            invariant
                i <= n,
                n == gene_print@.len(),
                genes@.len() == i,
                forall|k: int| 0 <= k < i ==> gene_type_of(#[trigger] genes@[k]) == gene_print@[k],
            decreases n - i,
        {
            let g = gene_print[i].get_random(&mut rng);
            genes.push(g);
            i = i + 1;
        }
        let r = Genotype { genes };
        proof {
            assert(r.spec_gene_print() =~= gene_print@);
        }
        r
    }

    /// The per-position model tags of this genotype.
    pub fn gene_print(&self) -> (r: Vec<GeneType>)
        ensures
            r@ == self.spec_gene_print(),
    {
        let mut tags: Vec<GeneType> = Vec::new();
        let n = self.genes.len();
        let mut i: usize = 0;
        while i < n
            invariant
                i <= n,
                n == self.genes@.len(),
                tags@.len() == i,
                forall|k: int| 0 <= k < i ==> #[trigger] tags@[k] == gene_type_of(self.genes@[k]),
            decreases n - i,
        {
            tags.push(self.genes[i].gene_type());
            i = i + 1;
        }
        proof {
            assert(tags@ =~= self.spec_gene_print());
        }
        tags
    }

    /// Whether this genotype may be crossed with `other`: true exactly when
    /// the two gene-prints agree position by position.
    pub fn can_cross(&self, other: &Self) -> (r: bool)
        ensures
            r == self.spec_can_cross(*other),
    {
        if self.genes.len() != other.genes.len() {
            proof {
                assert(self.spec_gene_print().len() != other.spec_gene_print().len());
            }
            return false;
        }
        let n = self.genes.len();
        let mut i: usize = 0;
        while i < n
            invariant
                i <= n,
                n == self.genes@.len(),
                n == other.genes@.len(),
                forall|k: int| 0 <= k < i
                    ==> gene_type_of(#[trigger] self.genes@[k]) == gene_type_of(other.genes@[k]),
            decreases n - i,
        {
            let t1 = self.genes[i].gene_type();
            let t2 = other.genes[i].gene_type();
            if t1 != t2 {
                proof {
                    assert(self.spec_gene_print()[i as int] != other.spec_gene_print()[i as int]);
                }
                return false;
            }
            i = i + 1;
        }
        proof {
            assert(self.spec_gene_print() =~= other.spec_gene_print());
        }
        true
    }

    /// Crosses two genotypes position by position. Incompatible gene-prints
    /// are rejected with `None`; a compatible pair always yields a child
    /// whose every gene is a possible offspring of the parents' genes at its
    /// position, so the child's gene-print equals the parents'.
    pub fn cross_with(&self, other: &Self) -> (r: Option<Genotype>)
        ensures
            r is Some <==> self.spec_can_cross(*other),
            r matches Some(c) ==> c@.len() == self@.len()
                && (forall|k: int| 0 <= k < self@.len()
                    ==> gene_offspring_ok(self@[k], other@[k], #[trigger] c@[k]))
                && c.spec_gene_print() == self.spec_gene_print(),
    {
        if !self.can_cross(other) {
            return None;
        }
        proof {
            assert(self.spec_gene_print().len() == other.spec_gene_print().len());
        }
        let mut rng = fresh_rng();
        let mut genes: Vec<Gene> = Vec::new();
        let n = self.genes.len();
        let mut i: usize = 0;
        while i < n
            invariant
                i <= n,
                n == self.genes@.len(),
                n == other.genes@.len(),
                self.spec_can_cross(*other),
                genes@.len() == i,
                forall|k: int| 0 <= k < i
                    ==> gene_offspring_ok(self.genes@[k], other.genes@[k], #[trigger] genes@[k]),
            decreases n - i,
        {
            proof {
                assert(self.spec_gene_print()[i as int] == other.spec_gene_print()[i as int]);
            }
            let g = match self.genes[i].cross_with(&other.genes[i], &mut rng) {
                Some(g) => g,
                None => {
                    proof {
                        assert(false);
                    }
                    Gene::Mendelian(MendelianGene::HomozygousRecessive)
                },
            };
            genes.push(g);
            i = i + 1;
        }
        let child = Genotype { genes };
        proof {
            assert forall|k: int| 0 <= k < child@.len() implies gene_type_of(#[trigger] child@[k])
                == gene_type_of(self@[k]) by {
                lemma_offspring_keeps_type(self@[k], other@[k], child@[k]);
            }
            assert(child.spec_gene_print() =~= self.spec_gene_print());
        }
        Some(child)
    }

    /// The lookup index of an all-Mendelian genotype, read as a base-3 number
    /// with position 0 the most significant digit; `None` as soon as any gene
    /// is Bloodlike or Quadruplet.
    pub fn into_index(&self) -> (r: Option<usize>)
        requires
            all_mendelian(self@) ==> pow3(self@.len()) <= usize::MAX as nat + 1,
        ensures
            r is Some <==> all_mendelian(self@),
            r matches Some(k) ==> k == index_of_genes(self@),
    {
        let n = self.genes.len();
        let mut i: usize = 0;
        while i < n
            invariant
                i <= n,
                n == self.genes@.len(),
                forall|k: int| 0 <= k < i ==> self.genes@[k] is Mendelian,
            decreases n - i,
        {
            if self.genes[i].gene_type() != GeneType::Mendelian {
                proof {
                    assert(!(self.genes@[i as int] is Mendelian));
                }
                return None;
            }
            i = i + 1;
        }
        proof {
            lemma_pow3_increases(self@.take(0int).len() as nat, self@.len() as nat);
        }
        let mut acc: usize = 0;
        let mut j: usize = 0;
        while j < n
            invariant
                j <= n,
                n == self.genes@.len(),
                all_mendelian(self@),
                pow3(self@.len()) <= usize::MAX as nat + 1,
                acc == index_of_genes(self@.take(j as int)),
                acc < pow3(j as nat),
            decreases n - j,
        {
            let d = match self.genes[j] {
                Gene::Mendelian(m) => m.into_usize(),
                _ => {
                    proof {
                        assert(false);
                    }
                    0
                },
            };
            proof {
                lemma_pow3_increases((j + 1) as nat, self@.len() as nat);
                lemma_index_take_step(self@, j as int);
            }
            acc = acc * 3 + d;
            j = j + 1;
        }
        proof {
            assert(self@.take(n as int) =~= self@);
        }
        Some(acc)
    }
}

/// A possible offspring carries the parents' shared model tag.
pub proof fn lemma_offspring_keeps_type(a: Gene, b: Gene, c: Gene)
    requires
        gene_offspring_ok(a, b, c),
    ensures
        gene_type_of(c) == gene_type_of(a),
        gene_type_of(c) == gene_type_of(b),
{
}

/// `pow3` does not shrink as the exponent grows.
pub proof fn lemma_pow3_increases(m: nat, n: nat)
    requires
        m <= n,
    ensures
        pow3(m) <= pow3(n),
    decreases n,
{
    if m < n {
        lemma_pow3_increases(m, (n - 1) as nat);
    }
}

/// One step of the most-significant-first base-3 evaluation: extending the
/// prefix by one gene multiplies the value by 3 and adds the gene's digit.
proof fn lemma_index_take_step(s: Seq<Gene>, j: int)
    requires
        0 <= j < s.len(),
    ensures
        index_of_genes(s.take(j + 1)) == index_of_genes(s.take(j)) * 3 + gene_digit(s[j]),
{
    let big = s.take(j + 1).map_values(|g: Gene| gene_digit(g));
    let small = s.take(j).map_values(|g: Gene| gene_digit(g));
    assert(big.drop_last() =~= small);
    assert(big.last() == gene_digit(s[j]));
}

proof fn lemma_base3_bounds(digits: Seq<int>)
    requires
        forall|k: int| 0 <= k < digits.len() ==> 0 <= #[trigger] digits[k] < 3,
    ensures
        0 <= base3_value(digits) < pow3(digits.len()),
    decreases digits.len(),
{
    if digits.len() > 0 {
        lemma_base3_bounds(digits.drop_last());
        assert(pow3(digits.len()) == 3 * pow3(digits.drop_last().len()));
        assert(0 <= digits.last() < 3);
    }
}

proof fn lemma_base3_injective(d1: Seq<int>, d2: Seq<int>)
    requires
        d1.len() == d2.len(),
        forall|k: int| 0 <= k < d1.len() ==> 0 <= #[trigger] d1[k] < 3,
        forall|k: int| 0 <= k < d2.len() ==> 0 <= #[trigger] d2[k] < 3,
        base3_value(d1) == base3_value(d2),
    ensures
        d1 == d2,
    decreases d1.len(),
{
    if d1.len() == 0 {
        assert(d1 =~= d2);
    } else {
        assert(base3_value(d1.drop_last()) * 3 + d1.last()
            == base3_value(d2.drop_last()) * 3 + d2.last());
        assert(d1.last() == d2.last());
        lemma_base3_injective(d1.drop_last(), d2.drop_last());
        assert forall|k: int| 0 <= k < d1.len() implies d1[k] == d2[k] by {
            if k < d1.len() - 1 {
                assert(d1.drop_last()[k] == d2.drop_last()[k]);
            }
        }
        assert(d1 =~= d2);
    }
}

/// The lookup index of an all-Mendelian gene sequence of length `n` lies in
/// `[0, pow3(n))`.
pub proof fn lemma_index_in_range(s: Seq<Gene>)
    requires
        all_mendelian(s),
    ensures
        0 <= index_of_genes(s) < pow3(s.len()),
{
    lemma_base3_bounds(s.map_values(|g: Gene| gene_digit(g)));
}

/// The index encoding is injective: two all-Mendelian gene sequences of the
/// same length with the same lookup index are equal.
pub proof fn lemma_index_injective(s1: Seq<Gene>, s2: Seq<Gene>)
    requires
        all_mendelian(s1),
        all_mendelian(s2),
        s1.len() == s2.len(),
        index_of_genes(s1) == index_of_genes(s2),
    ensures
        s1 == s2,
{
    let d1 = s1.map_values(|g: Gene| gene_digit(g));
    let d2 = s2.map_values(|g: Gene| gene_digit(g));
    lemma_base3_injective(d1, d2);
    assert forall|k: int| 0 <= k < s1.len() implies s1[k] == s2[k] by {
        assert(d1[k] == d2[k]);
        assert(gene_digit(s1[k]) == gene_digit(s2[k]));
    }
    assert(s1 =~= s2);
}

/// The Mendelian state with the given base-3 digit.
pub open spec fn mendelian_of_ordinal(d: int) -> MendelianGene {
    if d == 2 {
        MendelianGene::HomozygousDominant
    } else if d == 1 {
        MendelianGene::Heterozygous
    } else {
        MendelianGene::HomozygousRecessive
    }
}

/// The all-Mendelian gene sequence of length `n` whose lookup index is `k`,
/// least significant digit taken from the last position.
pub open spec fn genes_of_index(k: int, n: nat) -> Seq<Gene>
    decreases n,
{
    if n == 0 {
        Seq::empty()
    } else {
        genes_of_index(k / 3, (n - 1) as nat).push(Gene::Mendelian(mendelian_of_ordinal(k % 3)))
    }
}

/// The index encoding is surjective onto `[0, pow3(n))`: every value in that
/// range is the lookup index of an all-Mendelian gene sequence of length `n`.
pub proof fn lemma_index_surjective(k: int, n: nat)
    requires
        0 <= k < pow3(n),
    ensures
        genes_of_index(k, n).len() == n,
        all_mendelian(genes_of_index(k, n)),
        index_of_genes(genes_of_index(k, n)) == k,
    decreases n,
{
    if n == 0 {
        assert(genes_of_index(k, n).map_values(|g: Gene| gene_digit(g)) =~= Seq::<int>::empty());
    } else {
        assert(pow3(n) == 3 * pow3((n - 1) as nat));
        lemma_index_surjective(k / 3, (n - 1) as nat);
        let prefix = genes_of_index(k / 3, (n - 1) as nat);
        let whole = genes_of_index(k, n);
        let g = Gene::Mendelian(mendelian_of_ordinal(k % 3));
        assert(whole == prefix.push(g));
        let dw = whole.map_values(|x: Gene| gene_digit(x));
        let dp = prefix.map_values(|x: Gene| gene_digit(x));
        assert(dw.drop_last() =~= dp);
        assert(dw.last() == gene_digit(g));
        assert(gene_digit(g) == k % 3);
        assert(base3_value(dw) == base3_value(dp) * 3 + k % 3);
        assert forall|i: int| 0 <= i < whole.len() implies whole[i] is Mendelian by {
            if i < prefix.len() {
                assert(whole[i] == prefix[i]);
            }
        }
    }
}

/// Compatibility is symmetric: swapping the two genotypes does not change
/// whether they may be crossed.
pub proof fn lemma_can_cross_symmetric(g1: Genotype, g2: Genotype)
    ensures
        g1.spec_can_cross(g2) == g2.spec_can_cross(g1),
{
}

/// Mendelian crossing is commutative in distribution: the draw `(i, j)` from
/// parents `(a, b)` and the mirrored draw `(j, i)` from `(b, a)` are equally
/// likely and give the same offspring.
pub proof fn lemma_mendelian_cross_commutative(a: MendelianGene, b: MendelianGene, i: int, j: int)
    requires
        0 <= i < 2,
        0 <= j < 2,
    ensures
        mendelian_offspring(a, b, i, j) == mendelian_offspring(b, a, j, i),
{
}

/// Blood-like crossing is commutative in distribution, by the same mirrored
/// draw as in the Mendelian case.
pub proof fn lemma_bloodlike_cross_commutative(a: BloodlikeGene, b: BloodlikeGene, i: int, j: int)
    requires
        0 <= i < 2,
        0 <= j < 2,
    ensures
        bloodlike_offspring(a, b, i, j) == bloodlike_offspring(b, a, j, i),
{
}

/// Quadruplet crossing is commutative in distribution: handing each parent's
/// draw to the other parent gives the same offspring.
pub proof fn lemma_quadruplet_cross_commutative(
    a: QuadrupletGene,
    b: QuadrupletGene,
    i1: int,
    i2: int,
    j1: int,
    j2: int,
)
    requires
        quadruplet_draw_ok(i1, i2),
        quadruplet_draw_ok(j1, j2),
    ensures
        quadruplet_offspring(a, b, i1, i2, j1, j2) == quadruplet_offspring(b, a, j1, j2, i1, i2),
{
    let x1 = quadruplet_alleles(a)[i1];
    let x2 = quadruplet_alleles(a)[i2];
    let y1 = quadruplet_alleles(b)[j1];
    let y2 = quadruplet_alleles(b)[j2];
    lemma_count_dominant4(seq![x1, x2, y1, y2]);
    lemma_count_dominant4(seq![y1, y2, x1, x2]);
}

/// At the gene level the set of possible offspring of a pair does not depend
/// on the order of the parents.
pub proof fn lemma_gene_cross_commutative(a: Gene, b: Gene, c: Gene)
    ensures
        gene_offspring_ok(a, b, c) == gene_offspring_ok(b, a, c),
{
    if gene_offspring_ok(a, b, c) {
        lemma_gene_cross_commutative_one(a, b, c);
    }
    if gene_offspring_ok(b, a, c) {
        lemma_gene_cross_commutative_one(b, a, c);
    }
}

proof fn lemma_gene_cross_commutative_one(a: Gene, b: Gene, c: Gene)
    requires
        gene_offspring_ok(a, b, c),
    ensures
        gene_offspring_ok(b, a, c),
{
    match (a, b) {
        (Gene::Mendelian(x), Gene::Mendelian(y)) => {
            let (i, j): (int, int) = choose|i: int, j: int|
                0 <= i < 2 && 0 <= j < 2 && c == Gene::Mendelian(mendelian_offspring(x, y, i, j));
            lemma_mendelian_cross_commutative(x, y, i, j);
            assert(c == Gene::Mendelian(mendelian_offspring(y, x, j, i)));
        },
        (Gene::Bloodlike(x), Gene::Bloodlike(y)) => {
            let (i, j): (int, int) = choose|i: int, j: int|
                0 <= i < 2 && 0 <= j < 2 && c == Gene::Bloodlike(bloodlike_offspring(x, y, i, j));
            lemma_bloodlike_cross_commutative(x, y, i, j);
            assert(c == Gene::Bloodlike(bloodlike_offspring(y, x, j, i)));
        },
        (Gene::Quadruplet(x), Gene::Quadruplet(y)) => {
            let (i1, i2, j1, j2): (int, int, int, int) = choose|i1: int, i2: int, j1: int, j2: int|
                quadruplet_draw_ok(i1, i2) && quadruplet_draw_ok(j1, j2)
                    && c == Gene::Quadruplet(quadruplet_offspring(x, y, i1, i2, j1, j2));
            lemma_quadruplet_cross_commutative(x, y, i1, i2, j1, j2);
            assert(c == Gene::Quadruplet(quadruplet_offspring(y, x, j1, j2, i1, i2)));
        },
        _ => {},
    }
}

/// Mendelian idempotence: a homozygous pair can only hand on its own alleles,
/// so every draw reproduces the parents' state.
pub proof fn lemma_mendelian_homozygous_idempotent(i: int, j: int)
    requires
        0 <= i < 2,
        0 <= j < 2,
    ensures
        mendelian_offspring(MendelianGene::HomozygousDominant, MendelianGene::HomozygousDominant, i, j)
            == MendelianGene::HomozygousDominant,
        mendelian_offspring(MendelianGene::HomozygousRecessive, MendelianGene::HomozygousRecessive, i, j)
            == MendelianGene::HomozygousRecessive,
{
}

/// Crossing homozygous dominant with homozygous recessive always yields a
/// heterozygote: each parent can only contribute one kind of allele.
pub proof fn lemma_mendelian_dominant_recessive(i: int, j: int)
    requires
        0 <= i < 2,
        0 <= j < 2,
    ensures
        mendelian_offspring(MendelianGene::HomozygousDominant, MendelianGene::HomozygousRecessive, i, j)
            == MendelianGene::Heterozygous,
        mendelian_offspring(MendelianGene::HomozygousRecessive, MendelianGene::HomozygousDominant, i, j)
            == MendelianGene::Heterozygous,
{
}

/// Quadruplet boundary: two all-dominant parents always give an all-dominant
/// child, and two all-recessive parents an all-recessive one.
pub proof fn lemma_quadruplet_homozygous_idempotent(i1: int, i2: int, j1: int, j2: int)
    requires
        quadruplet_draw_ok(i1, i2),
        quadruplet_draw_ok(j1, j2),
    ensures
        quadruplet_offspring(
            QuadrupletGene::HomozygousDominant,
            QuadrupletGene::HomozygousDominant,
            i1,
            i2,
            j1,
            j2,
        ) == QuadrupletGene::HomozygousDominant,
        quadruplet_offspring(
            QuadrupletGene::HomozygousRecessive,
            QuadrupletGene::HomozygousRecessive,
            i1,
            i2,
            j1,
            j2,
        ) == QuadrupletGene::HomozygousRecessive,
{
    lemma_count_dominant4(seq![true, true, true, true]);
    lemma_count_dominant4(seq![false, false, false, false]);
}

} // verus!

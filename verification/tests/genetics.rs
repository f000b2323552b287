use flower_genetics::genetics::{BloodlikeGene, Gene, GeneType, Genotype, MendelianGene, QuadrupletGene};

fn mendelian(g: MendelianGene) -> Gene {
    Gene::Mendelian(g)
}

#[test]
fn cross_preserves_gene_print() {
    let g1 = Genotype::new(vec![
        mendelian(MendelianGene::Heterozygous),
        Gene::Bloodlike(BloodlikeGene::BloodAB),
        Gene::Quadruplet(QuadrupletGene::Heterozygous),
    ]);
    let g2 = Genotype::new(vec![
        mendelian(MendelianGene::HomozygousDominant),
        Gene::Bloodlike(BloodlikeGene::BloodO),
        Gene::Quadruplet(QuadrupletGene::SemihomozygousDominant),
    ]);
    assert!(g1.can_cross(&g2));
    for _ in 0..50 {
        let child = g1.cross_with(&g2).expect("compatible genotypes must cross");
        assert_eq!(child.gene_print(), g1.gene_print());
        assert_eq!(child.gene_print(), g2.gene_print());
    }
}

#[test]
fn cross_rejects_mismatched_prints() {
    let g1 = Genotype::new(vec![mendelian(MendelianGene::Heterozygous)]);
    let g2 = Genotype::new(vec![Gene::Quadruplet(QuadrupletGene::Heterozygous)]);
    assert!(!g1.can_cross(&g2));
    assert!(g1.cross_with(&g2).is_none());
    let g3 = Genotype::new(vec![
        mendelian(MendelianGene::Heterozygous),
        mendelian(MendelianGene::Heterozygous),
    ]);
    assert!(!g1.can_cross(&g3));
    assert!(g1.cross_with(&g3).is_none());
}

#[test]
fn gene_cross_with_mismatched_variants_is_none() {
    let mut rng = rand::rng();
    let a = Gene::Mendelian(MendelianGene::Heterozygous);
    let b = Gene::Quadruplet(QuadrupletGene::Heterozygous);
    assert!(a.cross_with(&b, &mut rng).is_none());
    assert!(b.cross_with(&a, &mut rng).is_none());
}

#[test]
fn mendelian_homozygous_idempotence() {
    let mut rng = rand::rng();
    let dom = Gene::Mendelian(MendelianGene::HomozygousDominant);
    let rec = Gene::Mendelian(MendelianGene::HomozygousRecessive);
    for _ in 0..50 {
        assert_eq!(
            dom.cross_with(&dom, &mut rng),
            Some(Gene::Mendelian(MendelianGene::HomozygousDominant))
        );
        assert_eq!(
            rec.cross_with(&rec, &mut rng),
            Some(Gene::Mendelian(MendelianGene::HomozygousRecessive))
        );
    }
}

#[test]
fn mendelian_dominant_recessive_gives_heterozygous() {
    let mut rng = rand::rng();
    let dom = Gene::Mendelian(MendelianGene::HomozygousDominant);
    let rec = Gene::Mendelian(MendelianGene::HomozygousRecessive);
    for _ in 0..50 {
        assert_eq!(
            dom.cross_with(&rec, &mut rng),
            Some(Gene::Mendelian(MendelianGene::Heterozygous))
        );
        assert_eq!(
            rec.cross_with(&dom, &mut rng),
            Some(Gene::Mendelian(MendelianGene::Heterozygous))
        );
    }
}

#[test]
fn mendelian_heterozygous_cross_stays_in_outcome_set() {
    let mut rng = rand::rng();
    let het = Gene::Mendelian(MendelianGene::Heterozygous);
    for _ in 0..50 {
        let child = het.cross_with(&het, &mut rng).unwrap();
        assert!(matches!(child, Gene::Mendelian(_)));
    }
}

#[test]
fn quadruplet_homozygous_boundary() {
    let mut rng = rand::rng();
    let dom = QuadrupletGene::HomozygousDominant;
    let rec = QuadrupletGene::HomozygousRecessive;
    for _ in 0..50 {
        assert_eq!(dom.cross(&dom, &mut rng), QuadrupletGene::HomozygousDominant);
        assert_eq!(rec.cross(&rec, &mut rng), QuadrupletGene::HomozygousRecessive);
    }
}

#[test]
fn quadruplet_allele_round_trip() {
    for g in [
        QuadrupletGene::HomozygousDominant,
        QuadrupletGene::SemihomozygousDominant,
        QuadrupletGene::Heterozygous,
        QuadrupletGene::SemihomozygousRecessive,
        QuadrupletGene::HomozygousRecessive,
    ] {
        assert_eq!(QuadrupletGene::from_alleles(g.to_alleles()), g);
    }
}

#[test]
fn mendelian_allele_round_trip() {
    for g in [
        MendelianGene::HomozygousDominant,
        MendelianGene::Heterozygous,
        MendelianGene::HomozygousRecessive,
    ] {
        assert_eq!(MendelianGene::from_bools(g.to_bools()), g);
    }
    assert_eq!(
        MendelianGene::from_bools([false, true]),
        MendelianGene::Heterozygous
    );
}

#[test]
fn index_example_encodes_to_55() {
    let g = Genotype::new(vec![
        mendelian(MendelianGene::HomozygousDominant),
        mendelian(MendelianGene::HomozygousRecessive),
        mendelian(MendelianGene::HomozygousRecessive),
        mendelian(MendelianGene::Heterozygous),
    ]);
    assert_eq!(g.into_index(), Some(55));
}

#[test]
fn index_is_bijective_on_length_two() {
    let states = [
        MendelianGene::HomozygousRecessive,
        MendelianGene::Heterozygous,
        MendelianGene::HomozygousDominant,
    ];
    let mut seen = vec![false; 9];
    for a in states {
        for b in states {
            let idx = Genotype::new(vec![mendelian(a), mendelian(b)])
                .into_index()
                .expect("all-Mendelian genotype must have an index");
            assert!(idx < 9);
            assert!(!seen[idx]);
            seen[idx] = true;
        }
    }
    assert!(seen.iter().all(|&s| s));
}

#[test]
fn index_most_significant_digit_first() {
    let g = Genotype::new(vec![
        mendelian(MendelianGene::HomozygousDominant),
        mendelian(MendelianGene::HomozygousRecessive),
    ]);
    assert_eq!(g.into_index(), Some(6));
    let h = Genotype::new(vec![
        mendelian(MendelianGene::HomozygousRecessive),
        mendelian(MendelianGene::HomozygousDominant),
    ]);
    assert_eq!(h.into_index(), Some(2));
}

#[test]
fn index_undefined_with_non_mendelian_gene() {
    let g = Genotype::new(vec![
        mendelian(MendelianGene::HomozygousDominant),
        Gene::Bloodlike(BloodlikeGene::BloodO),
        mendelian(MendelianGene::Heterozygous),
    ]);
    assert_eq!(g.into_index(), None);
    let q = Genotype::new(vec![Gene::Quadruplet(QuadrupletGene::Heterozygous)]);
    assert_eq!(q.into_index(), None);
    let empty = Genotype::new(vec![]);
    assert_eq!(empty.into_index(), Some(0));
}

#[test]
fn can_cross_is_symmetric() {
    let genotypes = [
        Genotype::new(vec![mendelian(MendelianGene::Heterozygous)]),
        Genotype::new(vec![Gene::Bloodlike(BloodlikeGene::BloodAB)]),
        Genotype::new(vec![
            mendelian(MendelianGene::Heterozygous),
            mendelian(MendelianGene::HomozygousDominant),
        ]),
        Genotype::new(vec![]),
    ];
    for g1 in &genotypes {
        for g2 in &genotypes {
            assert_eq!(g1.can_cross(g2), g2.can_cross(g1));
        }
    }
}

#[test]
fn random_genotype_conforms_to_gene_print() {
    let print = vec![
        GeneType::Mendelian,
        GeneType::Bloodlike,
        GeneType::Quadruplet,
        GeneType::Mendelian,
    ];
    for _ in 0..20 {
        let g = Genotype::new_random(print.clone());
        assert_eq!(g.gene_print(), print);
    }
}

#[test]
fn random_gene_has_requested_type() {
    let mut rng = rand::rng();
    for t in [GeneType::Mendelian, GeneType::Bloodlike, GeneType::Quadruplet] {
        for _ in 0..20 {
            assert_eq!(t.get_random(&mut rng).gene_type(), t);
        }
    }
}

#[test]
fn gene_type_tags_follow_variants() {
    assert_eq!(
        Gene::Mendelian(MendelianGene::Heterozygous).gene_type(),
        GeneType::Mendelian
    );
    assert_eq!(
        Gene::Bloodlike(BloodlikeGene::BloodO).gene_type(),
        GeneType::Bloodlike
    );
    assert_eq!(
        Gene::Quadruplet(QuadrupletGene::Heterozygous).gene_type(),
        GeneType::Quadruplet
    );
}

#[test]
fn into_usize_ordinals() {
    assert_eq!(MendelianGene::HomozygousRecessive.into_usize(), 0);
    assert_eq!(MendelianGene::Heterozygous.into_usize(), 1);
    assert_eq!(MendelianGene::HomozygousDominant.into_usize(), 2);
    assert_eq!(mendelian(MendelianGene::Heterozygous).into_usize(), Some(1));
    assert_eq!(
        Gene::Quadruplet(QuadrupletGene::Heterozygous).into_usize(),
        None
    );
}

#[test]
fn bloodlike_cross_of_pure_parents() {
    let mut rng = rand::rng();
    let a = BloodlikeGene::BloodHomozygousA;
    let o = BloodlikeGene::BloodO;
    let ga = Gene::Bloodlike(a);
    let go = Gene::Bloodlike(o);
    for _ in 0..50 {
        // a pure-A parent and a pure-O parent can only give heterozygous A
        assert_eq!(
            ga.cross_with(&go, &mut rng),
            Some(Gene::Bloodlike(BloodlikeGene::BloodHeterozygousA))
        );
        // two pure parents of A and B can only give AB
        assert_eq!(
            Gene::Bloodlike(BloodlikeGene::BloodHomozygousA).cross_with(
                &Gene::Bloodlike(BloodlikeGene::BloodHomozygousB),
                &mut rng
            ),
            Some(Gene::Bloodlike(BloodlikeGene::BloodAB))
        );
    }
}

#[test]
fn bloodlike_heterozygous_b_is_reachable() {
    let mut rng = rand::rng();
    let b = Gene::Bloodlike(BloodlikeGene::BloodHomozygousB);
    let o = Gene::Bloodlike(BloodlikeGene::BloodO);
    for _ in 0..50 {
        assert_eq!(
            b.cross_with(&o, &mut rng),
            Some(Gene::Bloodlike(BloodlikeGene::BloodHeterozygousB))
        );
    }
}

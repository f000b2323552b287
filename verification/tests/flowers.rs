use flower_genetics::acnh_flowers::{ACNHHyacinth, ACNHMum, ACNHRose};
use flower_genetics::flower::{
    ACNHFlowerType, ACNHPhenotypes, Flower, FlowerData, FlowerType, Phenotype,
    get_acnh_flower_color,
};
use flower_genetics::genetics::{BloodlikeGene, Gene, GeneType, Genotype, MendelianGene};
use flower_genetics::terminal::{AnsiColor, TextBlueprint};

fn tables() -> ACNHPhenotypes {
    // three colors are enough to cover the seed genotypes used below
    let rose: Vec<String> = (0..81)
        .map(|i| if i == 55 { "Pink" } else { "Red" }.to_string())
        .collect();
    let mum: Vec<String> = (0..27)
        .map(|i| if i == 0 { "White" } else { "Yellow" }.to_string())
        .collect();
    let hyacinth: Vec<String> = (0..27).map(|_| "Blue".to_string()).collect();
    ACNHPhenotypes::new(rose, mum, hyacinth)
}

#[test]
fn phenotype_renders_styled_character() {
    let bp = TextBlueprint::new().with_text_color(AnsiColor::from_code(160));
    let p = Phenotype::new(bp, '@');
    assert_eq!(p.to_string(), "\x1B[38;5;160m@\x1B[0m");
}

#[test]
fn color_names_map_to_codes() {
    let cases = [
        ("Red", 160u8),
        ("White", 7),
        ("Purple", 90),
        ("Yellow", 221),
        ("Pink", 211),
        ("Orange", 208),
        ("Black", 8),
        ("Blue", 27),
        ("Green", 106),
    ];
    for (name, code) in cases {
        let color = get_acnh_flower_color(name).expect("known color name");
        let ansi = TextBlueprint::new().with_text_color(color).get_ansi();
        assert_eq!(ansi, format!("\x1B[38;5;{}m", code));
    }
    assert!(get_acnh_flower_color("Chartreuse").is_none());
    assert!(get_acnh_flower_color("red").is_none());
    assert!(get_acnh_flower_color("").is_none());
}

#[test]
fn get_color_respects_table_bounds() {
    let ph = tables();
    assert_eq!(
        ph.get_color(ACNHFlowerType::Mum, 0),
        Some("White".to_string())
    );
    assert_eq!(
        ph.get_color(ACNHFlowerType::Mum, 1),
        Some("Yellow".to_string())
    );
    assert!(ph.get_color(ACNHFlowerType::Mum, 27).is_none());
    assert_eq!(
        ph.get_color(ACNHFlowerType::Rose, 55),
        Some("Pink".to_string())
    );
}

#[test]
fn flower_data_keeps_fields() {
    let data = FlowerData::new(
        "Rose (acnh)".to_string(),
        vec![GeneType::Mendelian; 4],
        FlowerType::ACNH(ACNHFlowerType::Rose),
    );
    assert_eq!(data.name(), "Rose (acnh)");
    assert_eq!(data.gene_print(), vec![GeneType::Mendelian; 4]);
    assert!(matches!(
        data.flower_type(),
        FlowerType::ACNH(ACNHFlowerType::Rose)
    ));
}

#[test]
fn rose_phenotype_resolves_through_tables() {
    let ph = tables();
    let m0 = Gene::Mendelian(MendelianGene::HomozygousRecessive);
    let m1 = Gene::Mendelian(MendelianGene::Heterozygous);
    let m2 = Gene::Mendelian(MendelianGene::HomozygousDominant);
    // encodes to 55, whose table entry is Pink (code 211)
    let rose = ACNHRose(Genotype::new(vec![m2, m0, m0, m1]));
    let s = rose.to_string(&ph).expect("rose must resolve");
    assert_eq!(s, "\x1B[38;5;211m@\x1B[0m");
    // encodes to 0, whose entry is Red
    let red_rose = ACNHRose(Genotype::new(vec![m0, m0, m0, m0]));
    assert_eq!(
        red_rose.to_string(&ph).unwrap(),
        "\x1B[38;5;160m@\x1B[0m"
    );
}

#[test]
fn mum_and_hyacinth_characters() {
    let ph = tables();
    let m0 = Gene::Mendelian(MendelianGene::HomozygousRecessive);
    let mum = ACNHMum(Genotype::new(vec![m0, m0, m0]));
    assert_eq!(mum.to_string(&ph).unwrap(), "\x1B[38;5;7m*\x1B[0m");
    let hyacinth = ACNHHyacinth(Genotype::new(vec![m0, m0, m0]));
    assert_eq!(hyacinth.to_string(&ph).unwrap(), "\x1B[38;5;27m^\x1B[0m");
}

#[test]
fn phenotype_undefined_cases() {
    let ph = tables();
    // a non-Mendelian gene leaves the lookup index undefined
    let odd = ACNHRose(Genotype::new(vec![Gene::Bloodlike(BloodlikeGene::BloodO)]));
    assert!(odd.phenotype(&ph).is_none());
    // an index past the table's end resolves to nothing
    let m2 = Gene::Mendelian(MendelianGene::HomozygousDominant);
    let big = ACNHMum(Genotype::new(vec![m2, m2, m2, m2]));
    assert!(big.phenotype(&ph).is_none());
}

#[test]
fn flower_info_and_crossing() {
    let m1 = Gene::Mendelian(MendelianGene::Heterozygous);
    let rose1 = ACNHRose(Genotype::new(vec![m1, m1, m1, m1]));
    let rose2 = ACNHRose(Genotype::new(vec![m1, m1, m1, m1]));
    assert_eq!(rose1.info().name(), "Rose (acnh)");
    assert_eq!(rose1.info().gene_print(), vec![GeneType::Mendelian; 4]);
    assert!(rose1.can_cross(&rose2));
    let child = rose1.cross(&rose2).expect("same print must cross");
    assert_eq!(child.gene_print(), vec![GeneType::Mendelian; 4]);
    let mum = ACNHMum(Genotype::new(vec![m1, m1, m1]));
    assert_eq!(mum.info().name(), "Mum (acnh)");
    assert_eq!(mum.genotype().gene_print(), vec![GeneType::Mendelian; 3]);
}

use universe_classifier::classifier::{classify, Category, Record};

fn record(
    id: u32,
    humanoid: Option<bool>,
    world: Option<&str>,
    age: Option<u32>,
    traits: Option<Vec<&str>>,
) -> Record {
    Record {
        id,
        humanoid,
        world: world.map(|w| w.to_string()),
        age,
        traits: traits.map(|ts| ts.into_iter().map(|t| t.to_string()).collect()),
    }
}

#[test]
fn ancient_age_is_rings() {
    let r = record(1, None, None, Some(6000), None);
    assert_eq!(classify(&r), Category::Rings);
}

#[test]
fn mid_age_is_star_wars() {
    let r = record(2, None, None, Some(300), None);
    assert_eq!(classify(&r), Category::StarWars);
}

#[test]
fn vogsphere_is_hitch_hiker() {
    let r = record(3, None, Some("Vogsphere"), None, None);
    assert_eq!(classify(&r), Category::HitchHiker);
}

#[test]
fn blonde_and_tall_is_marvel() {
    let r = record(4, None, None, None, Some(vec!["blonde", "tall"]));
    assert_eq!(classify(&r), Category::Marvel);
}

#[test]
fn humanoid_bulky_is_rings() {
    let r = record(5, Some(true), None, None, Some(vec!["bulky"]));
    assert_eq!(classify(&r), Category::Rings);
}

#[test]
fn non_humanoid_young_is_indeterminate() {
    let r = record(6, Some(false), None, Some(50), None);
    assert_eq!(classify(&r), Category::Indeterminate);
}

#[test]
fn age_band_edges() {
    assert_eq!(classify(&record(7, None, None, Some(5001), None)), Category::Rings);
    assert_eq!(classify(&record(8, None, None, Some(5000), None)), Category::Marvel);
    assert_eq!(classify(&record(9, None, None, Some(401), None)), Category::Marvel);
    assert_eq!(classify(&record(10, None, None, Some(400), None)), Category::StarWars);
    assert_eq!(classify(&record(11, None, None, Some(201), None)), Category::StarWars);
    assert_eq!(classify(&record(12, None, None, Some(200), None)), Category::Indeterminate);
    assert_eq!(classify(&record(13, None, None, Some(0), None)), Category::Indeterminate);
}

#[test]
fn world_table() {
    assert_eq!(classify(&record(14, None, Some("earth"), None, None)), Category::Rings);
    assert_eq!(classify(&record(15, None, Some("betelgeuse"), None, None)), Category::HitchHiker);
    assert_eq!(classify(&record(16, None, Some("asgard"), None, None)), Category::Marvel);
    assert_eq!(classify(&record(17, None, Some("kashyyyk"), None, None)), Category::StarWars);
    assert_eq!(classify(&record(18, None, Some("endor"), None, None)), Category::StarWars);
}

#[test]
fn world_is_case_and_whitespace_insensitive() {
    let shouted = classify(&record(19, None, Some("  EARTH "), None, None));
    let plain = classify(&record(20, None, Some("earth"), None, None));
    assert_eq!(shouted, plain);
    assert_eq!(shouted, Category::Rings);
}

#[test]
fn unrecognized_world_falls_through_to_traits() {
    let r = record(21, None, Some("Tatooine"), None, Some(vec!["hairy"]));
    assert_eq!(classify(&r), Category::StarWars);
}

#[test]
fn recognized_world_beats_traits_and_humanoid() {
    let r = record(22, Some(false), Some("Asgard"), Some(100), Some(vec!["green"]));
    assert_eq!(classify(&r), Category::Marvel);
}

#[test]
fn ancient_age_beats_world_and_traits() {
    let r = record(23, Some(true), Some("earth"), Some(9000), Some(vec!["green"]));
    assert_eq!(classify(&r), Category::Rings);
}

#[test]
fn step_a_traits() {
    assert_eq!(
        classify(&record(24, None, None, None, Some(vec!["extra_arms"]))),
        Category::HitchHiker
    );
    assert_eq!(
        classify(&record(25, None, None, None, Some(vec!["extra_head"]))),
        Category::HitchHiker
    );
    assert_eq!(classify(&record(26, None, None, None, Some(vec!["green"]))), Category::HitchHiker);
    assert_eq!(classify(&record(27, None, None, None, Some(vec!["hairy"]))), Category::StarWars);
    assert_eq!(
        classify(&record(28, None, None, None, Some(vec!["pointy_ears"]))),
        Category::Rings
    );
}

#[test]
fn hairy_with_pointy_ears_is_star_wars() {
    let r = record(29, None, None, None, Some(vec!["hairy", "pointy_ears"]));
    assert_eq!(classify(&r), Category::StarWars);
}

#[test]
fn step_a_beats_step_b() {
    let r = record(30, None, None, None, Some(vec!["blonde", "tall", "green"]));
    assert_eq!(classify(&r), Category::HitchHiker);
}

#[test]
fn short_and_bulky_is_rings() {
    let r = record(31, None, None, None, Some(vec!["short", "bulky"]));
    assert_eq!(classify(&r), Category::Rings);
}

#[test]
fn lone_compound_traits_abstain() {
    assert_eq!(
        classify(&record(32, None, None, None, Some(vec!["blonde"]))),
        Category::Indeterminate
    );
    assert_eq!(
        classify(&record(33, None, None, None, Some(vec!["tall"]))),
        Category::Indeterminate
    );
    assert_eq!(
        classify(&record(34, None, None, None, Some(vec!["short"]))),
        Category::Indeterminate
    );
}

#[test]
fn traits_are_normalized_before_matching() {
    let r = record(35, None, None, None, Some(vec![" HAIRY "]));
    assert_eq!(classify(&r), Category::StarWars);
}

#[test]
fn humanoid_tier() {
    assert_eq!(
        classify(&record(36, Some(true), None, None, Some(vec!["tall"]))),
        Category::Marvel
    );
    assert_eq!(
        classify(&record(37, Some(true), None, None, Some(vec!["short"]))),
        Category::Rings
    );
    assert_eq!(
        classify(&record(38, Some(true), None, None, Some(vec!["blonde"]))),
        Category::Indeterminate
    );
    assert_eq!(classify(&record(39, Some(true), None, None, None)), Category::Indeterminate);
    assert_eq!(
        classify(&record(40, Some(false), None, None, Some(vec!["tall"]))),
        Category::StarWars
    );
    assert_eq!(
        classify(&record(41, Some(false), None, None, Some(vec!["short"]))),
        Category::StarWars
    );
    assert_eq!(
        classify(&record(42, Some(false), None, None, Some(vec!["bulky"]))),
        Category::HitchHiker
    );
    assert_eq!(
        classify(&record(43, Some(false), None, None, Some(vec!["blonde"]))),
        Category::Indeterminate
    );
}

#[test]
fn empty_record_is_indeterminate() {
    let r = record(44, None, None, None, None);
    assert_eq!(classify(&r), Category::Indeterminate);
}

#[test]
fn empty_trait_list_is_like_no_traits() {
    let r = record(45, None, None, None, Some(vec![]));
    assert_eq!(classify(&r), Category::Indeterminate);
}

#[test]
fn classification_is_deterministic() {
    let make = || record(46, Some(true), Some(" Endor"), Some(150), Some(vec!["tall", "Hairy"]));
    assert_eq!(classify(&make()), classify(&make()));
    assert_eq!(classify(&make()), Category::StarWars);
}

#[test]
fn unrecognized_everything_is_indeterminate() {
    let r = record(47, None, Some("Gallifrey"), Some(10), Some(vec!["curious"]));
    assert_eq!(classify(&r), Category::Indeterminate);
}

use std::collections::HashMap;

use raphael::data::{
    get_base_item_name, get_item_name, item_name_data_loaded, Consumable, GameData, Item, Locale,
    Recipe, RecipeData, CL_ICON_CHAR, HQ_ICON_CHAR,
};
use raphael::search::{
    contains_noncontiguous, find_meals, find_potions, find_recipes, strip_icon_chars,
};

fn recipe(item_id: u32) -> Recipe {
    Recipe { item_id, max_level_scaling: 0, is_expert: false }
}

fn names(entries: &[(u32, &str)]) -> HashMap<u32, String> {
    entries.iter().map(|(id, name)| (*id, name.to_string())).collect()
}

fn sample_data() -> GameData {
    let mut items = HashMap::new();
    items.insert(10, Item { always_collectable: false });
    items.insert(11, Item { always_collectable: true });
    GameData {
        recipes: RecipeData {
            entries: vec![(100, recipe(10)), (101, recipe(11)), (102, recipe(12)), (103, recipe(13))],
        },
        items,
        item_names_en: Some(names(&[
            (10, "Grade 8 Tincture of Strength"),
            (11, "Rarefied Bread"),
            (12, "Grade 8 Tincture of Dexterity"),
            (20, "Baked Eggplant"),
            (21, "Grade 2 Gemdraught of Intelligence"),
        ])),
        item_names_de: Some(names(&[(10, "Starkes Stärkungsmittel")])),
        item_names_fr: None,
        item_names_jp: None,
        item_names_kr: None,
        meals: vec![Consumable { item_id: 20 }, Consumable { item_id: 10 }],
        potions: vec![Consumable { item_id: 21 }, Consumable { item_id: 12 }, Consumable { item_id: 99 }],
    }
}

#[test]
fn words_found_in_order_in_distinct_words() {
    assert!(contains_noncontiguous("grade 8 tincture of strength", "tinc str"));
    assert!(contains_noncontiguous("grade 8 tincture of strength", "8 of"));
    assert!(!contains_noncontiguous("grade 8 tincture of strength", "str tinc"));
    assert!(!contains_noncontiguous("tincture", "tinc ture"));
    assert!(!contains_noncontiguous("", "a"));
}

#[test]
fn blank_pattern_finds_everything() {
    assert!(contains_noncontiguous("anything at all", ""));
    assert!(contains_noncontiguous("", "   "));
}

#[test]
fn text_finds_itself() {
    assert!(contains_noncontiguous("rarefied  bread\tloaf", "rarefied  bread\tloaf"));
}

#[test]
fn white_space_of_all_kinds_separates_words() {
    assert!(contains_noncontiguous("a\u{3000}b", "a b"));
    assert!(contains_noncontiguous("a\u{a0}b\nc", "b c"));
    assert!(!contains_noncontiguous("a_b", "a b"));
}

#[test]
fn icons_are_stripped() {
    let s = format!("bread {}{}x", HQ_ICON_CHAR, CL_ICON_CHAR);
    assert_eq!(strip_icon_chars(&s), "bread x");
}

#[test]
fn recipes_found_ignoring_case_and_icons() {
    let data = sample_data();
    assert_eq!(find_recipes(&data, "GRADE 8 tincture", Locale::EN), vec![100, 102]);
    assert_eq!(find_recipes(&data, &format!("Bread {}", HQ_ICON_CHAR), Locale::EN), vec![101]);
    assert_eq!(find_recipes(&data, "", Locale::EN), vec![100, 101, 102]);
    assert_eq!(find_recipes(&data, "stärkungs", Locale::DE), vec![100]);
    assert_eq!(find_recipes(&data, "", Locale::FR), Vec::<u32>::new());
}

#[test]
fn meals_and_potions_found_by_position() {
    let data = sample_data();
    assert_eq!(find_meals(&data, "egg", Locale::EN), vec![0]);
    assert_eq!(find_meals(&data, "strength", Locale::EN), vec![1]);
    assert_eq!(find_potions(&data, "grade", Locale::EN), vec![0, 1]);
    assert_eq!(find_potions(&data, "of int", Locale::EN), vec![0]);
    assert_eq!(find_potions(&data, "zzz", Locale::EN), Vec::<usize>::new());
}

#[test]
fn item_names_by_locale_and_quality() {
    let data = sample_data();
    assert_eq!(get_base_item_name(&data, 10, Locale::EN).as_deref(), Some("Grade 8 Tincture of Strength"));
    assert_eq!(get_base_item_name(&data, 10, Locale::FR), None);
    assert_eq!(get_base_item_name(&data, 99, Locale::EN), None);
    assert_eq!(get_item_name(&data, 12, false, Locale::EN).as_deref(), Some("Grade 8 Tincture of Dexterity"));
    assert_eq!(
        get_item_name(&data, 10, true, Locale::EN),
        Some(format!("Grade 8 Tincture of Strength {}", HQ_ICON_CHAR))
    );
    assert_eq!(get_item_name(&data, 11, false, Locale::EN), Some(format!("Rarefied Bread {}", CL_ICON_CHAR)));
    assert_eq!(get_item_name(&data, 11, true, Locale::EN), Some(format!("Rarefied Bread {}", CL_ICON_CHAR)));
}

#[test]
fn name_tables_loaded() {
    let data = sample_data();
    assert!(item_name_data_loaded(&data, Locale::EN));
    assert!(item_name_data_loaded(&data, Locale::DE));
    assert!(!item_name_data_loaded(&data, Locale::FR));
    assert!(!item_name_data_loaded(&data, Locale::KR));
}

#[test]
fn match_survives_surrounding_words() {
    assert!(contains_noncontiguous("tincture of strength", "tinc str"));
    assert!(contains_noncontiguous("grade 8 tincture of strength hq", "tinc str"));
}

#[test]
fn two_part_pattern_needs_both_parts() {
    let text = "grade 8 tincture of strength";
    assert!(contains_noncontiguous(text, "grade strength"));
    assert!(contains_noncontiguous(text, "grade") && contains_noncontiguous(text, "strength"));
    assert!(!contains_noncontiguous(text, "grade dexterity"));
}

#[test]
fn more_words_narrow_the_recipes() {
    let data = sample_data();
    let both = find_recipes(&data, "grade dexterity", Locale::EN);
    assert_eq!(both, vec![102]);
    assert_eq!(find_recipes(&data, "grade", Locale::EN), vec![100, 102]);
    assert_eq!(find_recipes(&data, "dexterity", Locale::EN), vec![102]);
}

#[test]
fn positions_in_joined_lists() {
    let mut data = sample_data();
    let first = vec![Consumable { item_id: 20 }, Consumable { item_id: 99 }];
    let second = vec![Consumable { item_id: 10 }, Consumable { item_id: 20 }];
    data.meals = first.clone();
    let a = find_meals(&data, "egg", Locale::EN);
    data.meals = second.clone();
    let b = find_meals(&data, "egg", Locale::EN);
    data.meals = [first.clone(), second].concat();
    let joined = find_meals(&data, "egg", Locale::EN);
    let mut expected = a.clone();
    expected.extend(b.iter().map(|i| i + first.len()));
    assert_eq!(joined, expected);
    assert_eq!(joined, vec![0, 3]);
}

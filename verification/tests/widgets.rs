use std::collections::HashMap;

use raphael::data::{GameData, Item, Locale, Recipe, RecipeData, CL_ICON_CHAR, HQ_ICON_CHAR};
use raphael::sim::Action;
use raphael::widgets::{action_icon_folder, action_icon_name, copy_item_name, ItemNameLabel, RecipeLabel};

fn data() -> GameData {
    let mut items = HashMap::new();
    items.insert(11, Item { always_collectable: true });
    let mut en = HashMap::new();
    en.insert(10, "Walnut Lumber".to_string());
    en.insert(11, "Rarefied Bread".to_string());
    GameData {
        recipes: RecipeData { entries: vec![] },
        items,
        item_names_en: Some(en),
        item_names_de: None,
        item_names_fr: None,
        item_names_jp: None,
        item_names_kr: None,
        meals: vec![],
        potions: vec![],
    }
}

#[test]
fn item_label_shows_display_name() {
    let d = data();
    let label = ItemNameLabel::new(&d, 10, true, Locale::EN);
    assert_eq!(label.item_id(), 10);
    assert_eq!(label.text(), format!("Walnut Lumber {}", HQ_ICON_CHAR));
    let label = ItemNameLabel::new(&d, 10, false, Locale::EN);
    assert_eq!(label.text(), "Walnut Lumber");
}

#[test]
fn item_label_of_unknown_item() {
    let d = data();
    assert_eq!(ItemNameLabel::new(&d, 77, false, Locale::EN).text(), "Unknown item");
    assert_eq!(ItemNameLabel::new(&d, 10, false, Locale::JP).text(), "Unknown item");
}

#[test]
fn copied_name_has_no_marks() {
    let d = data();
    let hq = ItemNameLabel::new(&d, 10, true, Locale::EN);
    let nq = ItemNameLabel::new(&d, 10, false, Locale::EN);
    assert_eq!(copy_item_name(hq.text()), "Walnut Lumber");
    assert_eq!(copy_item_name(hq.text()), copy_item_name(nq.text()));
    let cl = ItemNameLabel::new(&d, 11, false, Locale::EN);
    assert_eq!(copy_item_name(cl.text()), "Rarefied Bread");
    assert_eq!(copy_item_name(&format!("a b {} {}  ", CL_ICON_CHAR, HQ_ICON_CHAR)), "a b");
    assert_eq!(copy_item_name("   "), "");
}

#[test]
fn recipe_label_keeps_its_settings() {
    let recipe = Recipe { item_id: 5, max_level_scaling: 90, is_expert: true };
    let label = RecipeLabel::new(&recipe, 80, Locale::FR);
    assert_eq!(*label.recipe(), recipe);
    assert_eq!(label.crafter_level(), 80);
    assert_eq!(label.locale(), Locale::FR);
}

#[test]
fn action_icons() {
    assert_eq!(action_icon_name(Action::MasterMend), "Master's Mend");
    assert_eq!(action_icon_name(Action::WasteNot2), "Waste Not II");
    assert_eq!(action_icon_name(Action::ComboAdvancedTouch), "Advanced Touch");
    assert_eq!(action_icon_folder(0), ("CRP", false));
    assert_eq!(action_icon_folder(7), ("CUL", false));
    assert_eq!(action_icon_folder(8), ("CRP", true));
    assert_eq!(action_icon_folder(255), ("CRP", true));
}

use std::collections::HashMap;

use vstd::prelude::*;

use crate::text::string_of;

verus! {

broadcast use vstd::std_specs::hash::group_hash_axioms;

/// The icon character that the game appends to the names of high-quality items.
pub const HQ_ICON_CHAR: char = '\u{e03c}';

/// The icon character that the game appends to the names of collectable items.
pub const CL_ICON_CHAR: char = '\u{e03d}';

/// The languages in which item names are available.
#[derive(Clone, Copy, Debug, PartialEq, Eq, Structural)]
pub enum Locale {
    EN,
    DE,
    FR,
    JP,
    KR,
}

/// A recipe, as far as recipe search and labels read it.
#[derive(Clone, Copy, Debug, PartialEq, Eq, Structural)]
pub struct Recipe {
    pub item_id: u32,
    pub max_level_scaling: u8,
    pub is_expert: bool,
}

/// A food or a potion, identified by the item it is made of.
#[derive(Clone, Copy, Debug, PartialEq, Eq, Structural)]
pub struct Consumable {
    pub item_id: u32,
}

/// What the game data says about an item besides its name.
#[derive(Clone, Copy, Debug, PartialEq, Eq, Structural)]
pub struct Item {
    pub always_collectable: bool,
}

/// The recipe table: each recipe with its recipe id, in table order.
pub struct RecipeData {
    pub entries: Vec<(u32, Recipe)>,
}

/// The game data that searches and labels read. The name table of a locale is
/// `None` while it is not loaded.
pub struct GameData {
    pub recipes: RecipeData,
    pub items: HashMap<u32, Item>,
    pub item_names_en: Option<HashMap<u32, String>>,
    pub item_names_de: Option<HashMap<u32, String>>,
    pub item_names_fr: Option<HashMap<u32, String>>,
    pub item_names_jp: Option<HashMap<u32, String>>,
    pub item_names_kr: Option<HashMap<u32, String>>,
    pub meals: Vec<Consumable>,
    pub potions: Vec<Consumable>,
}

impl GameData {
    /// The name table of `locale`, if it is loaded.
    pub open spec fn name_table(&self, locale: Locale) -> Option<HashMap<u32, String>> {
        match locale {
            Locale::EN => self.item_names_en,
            Locale::DE => self.item_names_de,
            Locale::FR => self.item_names_fr,
            Locale::JP => self.item_names_jp,
            Locale::KR => self.item_names_kr,
        }
    }

    /// The plain name of an item in `locale`: present when the locale's table is
    /// loaded and holds the item.
    pub open spec fn base_name(&self, item_id: u32, locale: Locale) -> Option<Seq<char>> {
        match self.name_table(locale) {
            Some(table) => if table@.contains_key(item_id) {
                Some(table@[item_id]@)
            } else {
                None
            },
            None => None,
        }
    }

    /// Whether the item is always collectable.
    pub open spec fn is_always_collectable(&self, item_id: u32) -> bool {
        self.items@.contains_key(item_id) && self.items@[item_id].always_collectable
    }

    /// The displayed name of an item: its plain name, followed by a space and the
    /// collectable icon for an always collectable item, or else by a space and the
    /// high-quality icon when `hq` is asked for.
    pub open spec fn display_name(&self, item_id: u32, hq: bool, locale: Locale) -> Option<
        Seq<char>,
    > {
        match self.base_name(item_id, locale) {
            Some(name) => Some(
                if self.is_always_collectable(item_id) {
                    name + seq![' ', CL_ICON_CHAR]
                } else if hq {
                    name + seq![' ', HQ_ICON_CHAR]
                } else {
                    name
                },
            ),
            None => None,
        }
    }
}

/// The table a name is taken from for an item's own language.
pub open spec fn name_in(table: Option<HashMap<u32, String>>, item_id: u32) -> Option<Seq<char>> {
    match table {
        Some(t) => if t@.contains_key(item_id) {
            Some(t@[item_id]@)
        } else {
            None
        },
        None => None,
    }
}

/// Each locale reads the name table of its own language: English names from the
/// English table, German from the German, French from the French, Japanese from
/// the Japanese and Korean from the Korean, and a locale counts as loaded exactly
/// when its own table is there.
pub proof fn lemma_each_locale_reads_its_own_table(game_data: &GameData, item_id: u32)
    ensures
        game_data.base_name(item_id, Locale::EN) == name_in(game_data.item_names_en, item_id),
        game_data.base_name(item_id, Locale::DE) == name_in(game_data.item_names_de, item_id),
        game_data.base_name(item_id, Locale::FR) == name_in(game_data.item_names_fr, item_id),
        game_data.base_name(item_id, Locale::JP) == name_in(game_data.item_names_jp, item_id),
        game_data.base_name(item_id, Locale::KR) == name_in(game_data.item_names_kr, item_id),
        (game_data.name_table(Locale::EN) is Some) == (game_data.item_names_en is Some),
        (game_data.name_table(Locale::DE) is Some) == (game_data.item_names_de is Some),
        (game_data.name_table(Locale::FR) is Some) == (game_data.item_names_fr is Some),
        (game_data.name_table(Locale::JP) is Some) == (game_data.item_names_jp is Some),
        (game_data.name_table(Locale::KR) is Some) == (game_data.item_names_kr is Some),
{
}

/// The names in one locale do not depend on the tables of the other languages:
/// two game data whose tables for `locale` hold the same names give the same
/// names in `locale`.
pub proof fn lemma_locales_are_independent(
    first: &GameData,
    second: &GameData,
    item_id: u32,
    locale: Locale,
)
    requires
        locale == Locale::EN ==> first.item_names_en == second.item_names_en,
        locale == Locale::DE ==> first.item_names_de == second.item_names_de,
        locale == Locale::FR ==> first.item_names_fr == second.item_names_fr,
        locale == Locale::JP ==> first.item_names_jp == second.item_names_jp,
        locale == Locale::KR ==> first.item_names_kr == second.item_names_kr,
    ensures
        first.base_name(item_id, locale) == second.base_name(item_id, locale),
        (first.name_table(locale) is Some) == (second.name_table(locale) is Some),
{
}

/// The displayed name is the plain name with at most a space and one icon after
/// it: the collectable icon for an always collectable item whatever the quality
/// asked for, else the high-quality icon exactly when high quality is asked for;
/// an item with no plain name has no displayed name.
pub proof fn lemma_display_name_marks(game_data: &GameData, item_id: u32, locale: Locale)
    ensures
        game_data.base_name(item_id, locale) is None ==> game_data.display_name(
            item_id,
            true,
            locale,
        ) is None && game_data.display_name(item_id, false, locale) is None,
        game_data.base_name(item_id, locale) matches Some(name) ==> {
            if game_data.items@.contains_key(item_id)
                && game_data.items@[item_id].always_collectable {
                &&& game_data.display_name(item_id, true, locale) == Some(
                    name + seq![' ', CL_ICON_CHAR],
                )
                &&& game_data.display_name(item_id, false, locale) == Some(
                    name + seq![' ', CL_ICON_CHAR],
                )
            } else {
                &&& game_data.display_name(item_id, true, locale) == Some(
                    name + seq![' ', HQ_ICON_CHAR],
                )
                &&& game_data.display_name(item_id, false, locale) == Some(name)
            }
        },
{
}

fn lookup_name(table: &HashMap<u32, String>, item_id: u32) -> (r: Option<String>)
    ensures
        match r {
            Some(name) => table@.contains_key(item_id) && name@ == table@[item_id]@,
            None => !table@.contains_key(item_id),
        },
{
    match table.get(&item_id) {
        Some(name) => Some(name.clone()),
        None => None,
    }
}

/// The plain name of an item in the given locale, if that locale's names are
/// loaded and name the item.
pub fn get_base_item_name(game_data: &GameData, item_id: u32, locale: Locale) -> (r: Option<
    String,
>)
    ensures
        match r {
            Some(name) => game_data.base_name(item_id, locale) == Some(name@),
            None => game_data.base_name(item_id, locale) is None,
        },
{
    let table = match locale {
        Locale::EN => &game_data.item_names_en,
        Locale::DE => &game_data.item_names_de,
        Locale::FR => &game_data.item_names_fr,
        Locale::JP => &game_data.item_names_jp,
        Locale::KR => &game_data.item_names_kr,
    };
    match table {
        Some(table) => lookup_name(table, item_id),
        None => None,
    }
}

/// The displayed name of an item (see [`GameData::display_name`]).
pub fn get_item_name(game_data: &GameData, item_id: u32, hq: bool, locale: Locale) -> (r: Option<
    String,
>)
    ensures
        match r {
            Some(name) => game_data.display_name(item_id, hq, locale) == Some(name@),
            None => game_data.display_name(item_id, hq, locale) is None,
        },
{
    let name = match get_base_item_name(game_data, item_id, locale) {
        Some(name) => name,
        None => return None,
    };
    let always_collectable = match game_data.items.get(&item_id) {
        Some(item) => item.always_collectable,
        None => false,
    };
    if always_collectable {
        let mut chars = crate::text::chars_of(name.as_str());
        chars.push(' ');
        chars.push(CL_ICON_CHAR);
        Some(string_of(&chars))
    } else if hq {
        let mut chars = crate::text::chars_of(name.as_str());
        chars.push(' ');
        chars.push(HQ_ICON_CHAR);
        Some(string_of(&chars))
    } else {
        Some(name)
    }
}

/// Whether the item names of `locale` are loaded.
pub fn item_name_data_loaded(game_data: &GameData, locale: Locale) -> (r: bool)
    ensures
        r == game_data.name_table(locale) is Some,
{
    match locale {
        Locale::EN => game_data.item_names_en.is_some(),
        Locale::DE => game_data.item_names_de.is_some(),
        Locale::FR => game_data.item_names_fr.is_some(),
        Locale::JP => game_data.item_names_jp.is_some(),
        Locale::KR => game_data.item_names_kr.is_some(),
    }
}

} // verus!

use vstd::prelude::*;

use crate::data::{get_item_name, GameData, Locale, Recipe, CL_ICON_CHAR, HQ_ICON_CHAR};
use crate::sim::Action;
use crate::text::{chars_of, string_of};

verus! {

/// The character that stands for the expert-recipe icon in labels.
pub const EXPERT_RECIPE_ICON_CHAR: char = '\u{e100}';

/// The text shown for an item whose name is not known.
pub open spec fn unknown_item_text() -> Seq<char> {
    "Unknown item"@
}

/// The text of an item label: the item's displayed name, or the unknown-item text.
pub open spec fn item_label_text(
    game_data: &GameData,
    item_id: u32,
    hq: bool,
    locale: Locale,
) -> Seq<char> {
    match game_data.display_name(item_id, hq, locale) {
        Some(name) => name,
        None => unknown_item_text(),
    }
}

/// A clickable label that shows an item's name.
pub struct ItemNameLabel {
    item_id: u32,
    text: String,
}

impl ItemNameLabel {
    /// The item the label names.
    pub closed spec fn spec_item_id(&self) -> u32 {
        self.item_id
    }

    /// The text the label shows.
    pub closed spec fn spec_text(&self) -> Seq<char> {
        self.text@
    }

    /// A label for an item, showing its displayed name in `locale`.
    pub fn new(game_data: &GameData, item_id: u32, hq: bool, locale: Locale) -> (r: Self)
        ensures
            r.spec_item_id() == item_id,
            r.spec_text() == item_label_text(game_data, item_id, hq, locale),
    {
        let text = match get_item_name(game_data, item_id, hq, locale) {
            Some(name) => name,
            None => "Unknown item".to_owned(),
        };
        Self { item_id, text }
    }

    /// The item the label names.
    pub fn item_id(&self) -> (r: u32)
        ensures
            r == self.spec_item_id(),
    {
        self.item_id
    }

    /// The text the label shows.
    pub fn text(&self) -> (r: &str)
        ensures
            r@ == self.spec_text(),
    {
        self.text.as_str()
    }
}

/// A clickable label that shows a recipe's item, with its expert and level-sync
/// marks.
pub struct RecipeLabel<'a> {
    recipe: &'a Recipe,
    crafter_level: u8,
    locale: Locale,
}

impl<'a> RecipeLabel<'a> {
    /// The recipe the label shows.
    pub closed spec fn spec_recipe(&self) -> Recipe {
        *self.recipe
    }

    /// The crafter level that level-synced values are worked out for.
    pub closed spec fn spec_crafter_level(&self) -> u8 {
        self.crafter_level
    }

    /// The language of the label.
    pub closed spec fn spec_locale(&self) -> Locale {
        self.locale
    }

    /// A label for `recipe`, for a crafter of `crafter_level`, in `locale`.
    pub fn new(recipe: &'a Recipe, crafter_level: u8, locale: Locale) -> (r: Self)
        ensures
            r.spec_recipe() == *recipe,
            r.spec_crafter_level() == crafter_level,
            r.spec_locale() == locale,
    {
        Self { recipe, crafter_level, locale }
    }

    /// The recipe the label shows.
    pub fn recipe(&self) -> (r: &'a Recipe)
        ensures
            *r == self.spec_recipe(),
    {
        self.recipe
    }

    /// The crafter level of the label.
    pub fn crafter_level(&self) -> (r: u8)
        ensures
            r == self.spec_crafter_level(),
    {
        self.crafter_level
    }

    /// The language of the label.
    pub fn locale(&self) -> (r: Locale)
        ensures
            r == self.spec_locale(),
    {
        self.locale
    }
}

/// The characters that end a displayed name without being part of the name.
pub open spec fn is_name_mark(c: char) -> bool {
    c == ' ' || c == HQ_ICON_CHAR || c == CL_ICON_CHAR
}

/// `s` with its trailing spaces and high-quality and collectable icons removed.
pub open spec fn without_trailing_marks(s: Seq<char>) -> Seq<char>
    decreases s.len(),
{
    if s.len() > 0 && is_name_mark(s.last()) {
        without_trailing_marks(s.drop_last())
    } else {
        s
    }
}

/// The item name that a label copies: its text without the trailing spaces and
/// icons.
pub fn copy_item_name(text: &str) -> (r: String)
    ensures
        r@ == without_trailing_marks(text@),
{
    let mut cs = chars_of(text);
    while cs.len() > 0 && (cs[cs.len() - 1] == ' ' || cs[cs.len() - 1] == HQ_ICON_CHAR
        || cs[cs.len() - 1] == CL_ICON_CHAR)
        invariant
            without_trailing_marks(cs@) == without_trailing_marks(text@),
        decreases cs.len(),
    {
        cs.pop();
    }
    string_of(&cs)
}

/// What a label copies of a known item is its plain name with trailing marks
/// removed, whether the label shows the high-quality or the collectable icon or
/// neither; so the copied name does not depend on the quality asked for.
pub proof fn lemma_copied_name_is_plain_name(
    game_data: &GameData,
    item_id: u32,
    hq: bool,
    locale: Locale,
)
    ensures
        game_data.base_name(item_id, locale) matches Some(name) ==> without_trailing_marks(
            item_label_text(game_data, item_id, hq, locale),
        ) == without_trailing_marks(name),
        without_trailing_marks(item_label_text(game_data, item_id, hq, locale))
            == without_trailing_marks(item_label_text(game_data, item_id, false, locale)),
{
    if let Some(name) = game_data.base_name(item_id, locale) {
        let cl = name + seq![' ', CL_ICON_CHAR];
        let hqn = name + seq![' ', HQ_ICON_CHAR];
        let sp = name + seq![' '];
        assert(cl.drop_last() == sp);
        assert(hqn.drop_last() == sp);
        assert(sp.drop_last() == name);
        assert(cl.last() == CL_ICON_CHAR);
        assert(hqn.last() == HQ_ICON_CHAR);
        assert(sp.last() == ' ');
        assert(without_trailing_marks(sp) == without_trailing_marks(name));
        assert(without_trailing_marks(cl) == without_trailing_marks(sp));
        assert(without_trailing_marks(hqn) == without_trailing_marks(sp));
    }
}

/// The file name (without extension) of an action's icon.
pub open spec fn action_icon_label(action: Action) -> Seq<char> {
    match action {
        Action::BasicSynthesis => "Basic Synthesis"@,
        Action::BasicTouch => "Basic Touch"@,
        Action::MasterMend => "Master's Mend"@,
        Action::Observe => "Observe"@,
        Action::TricksOfTheTrade => "Tricks of the Trade"@,
        Action::WasteNot => "Waste Not"@,
        Action::Veneration => "Veneration"@,
        Action::StandardTouch => "Standard Touch"@,
        Action::GreatStrides => "Great Strides"@,
        Action::Innovation => "Innovation"@,
        Action::WasteNot2 => "Waste Not II"@,
        Action::ByregotsBlessing => "Byregot's Blessing"@,
        Action::PreciseTouch => "Precise Touch"@,
        Action::MuscleMemory => "Muscle Memory"@,
        Action::CarefulSynthesis => "Careful Synthesis"@,
        Action::Manipulation => "Manipulation"@,
        Action::PrudentTouch => "Prudent Touch"@,
        Action::AdvancedTouch => "Advanced Touch"@,
        Action::Reflect => "Reflect"@,
        Action::PreparatoryTouch => "Preparatory Touch"@,
        Action::Groundwork => "Groundwork"@,
        Action::DelicateSynthesis => "Delicate Synthesis"@,
        Action::IntensiveSynthesis => "Intensive Synthesis"@,
        Action::TrainedEye => "Trained Eye"@,
        Action::HeartAndSoul => "Heart and Soul"@,
        Action::PrudentSynthesis => "Prudent Synthesis"@,
        Action::TrainedFinesse => "Trained Finesse"@,
        Action::RefinedTouch => "Refined Touch"@,
        Action::QuickInnovation => "Quick Innovation"@,
        Action::ImmaculateMend => "Immaculate Mend"@,
        Action::TrainedPerfection => "Trained Perfection"@,
        Action::ComboStandardTouch => "Standard Touch"@,
        Action::ComboAdvancedTouch => "Advanced Touch"@,
    }
}

/// The file name (without extension) of an action's icon.
pub fn action_icon_name(action: Action) -> (r: &'static str)
    ensures
        r@ == action_icon_label(action),
{
    match action {
        Action::BasicSynthesis => "Basic Synthesis",
        Action::BasicTouch => "Basic Touch",
        Action::MasterMend => "Master's Mend",
        Action::Observe => "Observe",
        Action::TricksOfTheTrade => "Tricks of the Trade",
        Action::WasteNot => "Waste Not",
        Action::Veneration => "Veneration",
        Action::StandardTouch => "Standard Touch",
        Action::GreatStrides => "Great Strides",
        Action::Innovation => "Innovation",
        Action::WasteNot2 => "Waste Not II",
        Action::ByregotsBlessing => "Byregot's Blessing",
        Action::PreciseTouch => "Precise Touch",
        Action::MuscleMemory => "Muscle Memory",
        Action::CarefulSynthesis => "Careful Synthesis",
        Action::Manipulation => "Manipulation",
        Action::PrudentTouch => "Prudent Touch",
        Action::AdvancedTouch => "Advanced Touch",
        Action::Reflect => "Reflect",
        Action::PreparatoryTouch => "Preparatory Touch",
        Action::Groundwork => "Groundwork",
        Action::DelicateSynthesis => "Delicate Synthesis",
        Action::IntensiveSynthesis => "Intensive Synthesis",
        Action::TrainedEye => "Trained Eye",
        Action::HeartAndSoul => "Heart and Soul",
        Action::PrudentSynthesis => "Prudent Synthesis",
        Action::TrainedFinesse => "Trained Finesse",
        Action::RefinedTouch => "Refined Touch",
        Action::QuickInnovation => "Quick Innovation",
        Action::ImmaculateMend => "Immaculate Mend",
        Action::TrainedPerfection => "Trained Perfection",
        Action::ComboStandardTouch => "Standard Touch",
        Action::ComboAdvancedTouch => "Advanced Touch",
    }
}

/// Each action's icon file is named after the action as the game writes it; the
/// combo forms of Standard and Advanced Touch use the icons of the plain touches.
pub proof fn lemma_action_icon_files()
    ensures
        action_icon_label(Action::BasicSynthesis) == "Basic Synthesis"@,
        action_icon_label(Action::BasicTouch) == "Basic Touch"@,
        action_icon_label(Action::MasterMend) == "Master's Mend"@,
        action_icon_label(Action::Observe) == "Observe"@,
        action_icon_label(Action::TricksOfTheTrade) == "Tricks of the Trade"@,
        action_icon_label(Action::WasteNot) == "Waste Not"@,
        action_icon_label(Action::Veneration) == "Veneration"@,
        action_icon_label(Action::StandardTouch) == "Standard Touch"@,
        action_icon_label(Action::GreatStrides) == "Great Strides"@,
        action_icon_label(Action::Innovation) == "Innovation"@,
        action_icon_label(Action::WasteNot2) == "Waste Not II"@,
        action_icon_label(Action::ByregotsBlessing) == "Byregot's Blessing"@,
        action_icon_label(Action::PreciseTouch) == "Precise Touch"@,
        action_icon_label(Action::MuscleMemory) == "Muscle Memory"@,
        action_icon_label(Action::CarefulSynthesis) == "Careful Synthesis"@,
        action_icon_label(Action::Manipulation) == "Manipulation"@,
        action_icon_label(Action::PrudentTouch) == "Prudent Touch"@,
        action_icon_label(Action::AdvancedTouch) == "Advanced Touch"@,
        action_icon_label(Action::Reflect) == "Reflect"@,
        action_icon_label(Action::PreparatoryTouch) == "Preparatory Touch"@,
        action_icon_label(Action::Groundwork) == "Groundwork"@,
        action_icon_label(Action::DelicateSynthesis) == "Delicate Synthesis"@,
        action_icon_label(Action::IntensiveSynthesis) == "Intensive Synthesis"@,
        action_icon_label(Action::TrainedEye) == "Trained Eye"@,
        action_icon_label(Action::HeartAndSoul) == "Heart and Soul"@,
        action_icon_label(Action::PrudentSynthesis) == "Prudent Synthesis"@,
        action_icon_label(Action::TrainedFinesse) == "Trained Finesse"@,
        action_icon_label(Action::RefinedTouch) == "Refined Touch"@,
        action_icon_label(Action::QuickInnovation) == "Quick Innovation"@,
        action_icon_label(Action::ImmaculateMend) == "Immaculate Mend"@,
        action_icon_label(Action::TrainedPerfection) == "Trained Perfection"@,
        action_icon_label(Action::ComboStandardTouch) == "Standard Touch"@,
        action_icon_label(Action::ComboAdvancedTouch) == "Advanced Touch"@,
{
}

/// The folder of a job's action icons, the first job's folder for an unknown job.
pub open spec fn job_icon_folder(job_id: u8) -> Seq<char> {
    match job_id {
        0 => "CRP"@,
        1 => "BSM"@,
        2 => "ARM"@,
        3 => "GSM"@,
        4 => "LTW"@,
        5 => "WVR"@,
        6 => "ALC"@,
        7 => "CUL"@,
        _ => "CRP"@,
    }
}

/// The known jobs 0 to 7 get the folders CRP, BSM, ARM, GSM, LTW, WVR, ALC and CUL
/// in that order, so that no two known jobs share a folder; every other job id
/// gets the first job's folder.
pub proof fn lemma_job_folders(job_id: u8, other: u8)
    ensures
        Seq::new(8, |i: int| job_icon_folder(i as u8)) == seq![
            "CRP"@,
            "BSM"@,
            "ARM"@,
            "GSM"@,
            "LTW"@,
            "WVR"@,
            "ALC"@,
            "CUL"@,
        ],
        job_id <= 7 && other <= 7 && job_id != other ==> job_icon_folder(job_id)
            != job_icon_folder(other),
        job_id > 7 ==> job_icon_folder(job_id) == job_icon_folder(0),
{
    reveal_strlit("CRP");
    reveal_strlit("BSM");
    reveal_strlit("ARM");
    reveal_strlit("GSM");
    reveal_strlit("LTW");
    reveal_strlit("WVR");
    reveal_strlit("ALC");
    reveal_strlit("CUL");
    assert(Seq::new(8, |i: int| job_icon_folder(i as u8)) =~= seq![
        "CRP"@,
        "BSM"@,
        "ARM"@,
        "GSM"@,
        "LTW"@,
        "WVR"@,
        "ALC"@,
        "CUL"@,
    ]);
    if job_id <= 7 && other <= 7 && job_id != other {
        let a = job_icon_folder(job_id);
        let b = job_icon_folder(other);
        assert(a[0] != b[0] || a[1] != b[1] || a[2] != b[2]);
    }
}

/// The folder of a job's action icons, and whether the job id was unknown, in
/// which case the first job's folder stands in.
pub fn action_icon_folder(job_id: u8) -> (r: (&'static str, bool))
    ensures
        r.0@ == job_icon_folder(job_id),
        r.1 == (job_id > 7),
{
    match job_id {
        0 => ("CRP", false),
        1 => ("BSM", false),
        2 => ("ARM", false),
        3 => ("GSM", false),
        4 => ("LTW", false),
        5 => ("WVR", false),
        6 => ("ALC", false),
        7 => ("CUL", false),
        _ => ("CRP", true),
    }
}

} // verus!

use vstd::prelude::*;

use crate::data::{get_base_item_name, Consumable, GameData, Locale, Recipe, CL_ICON_CHAR, HQ_ICON_CHAR};
use crate::text::{
    chars_of, contains_substring, is_substring, is_white_space, lemma_words_split, lowercase,
    split_whitespace, string_of, to_lowercase, words,
};

verus! {

/// `idx` places the pattern words `ps` on words of `ws`: pattern word `i` lies
/// inside word `idx[i]`, and the places strictly increase.
pub open spec fn is_ordered_embedding(
    ws: Seq<Seq<char>>,
    ps: Seq<Seq<char>>,
    idx: Seq<int>,
) -> bool {
    &&& idx.len() == ps.len()
    &&& forall|i: int|
        0 <= i < idx.len() ==> 0 <= #[trigger] idx[i] < ws.len() && is_substring(ps[i], ws[idx[i]])
    &&& forall|i: int, j: int| 0 <= i < j < idx.len() ==> idx[i] < idx[j]
}

/// The words of `pattern` can be found, in order, inside distinct words of `text`
/// (each pattern word a piece of a later text word than the one before it).
pub open spec fn matches_noncontiguous(text: Seq<char>, pattern: Seq<char>) -> bool {
    exists|idx: Seq<int>| is_ordered_embedding(words(text), words(pattern), idx)
}

/// Whether the white-space separated words of `pattern` occur, in order, as
/// pieces of distinct words of `string`.
pub fn contains_noncontiguous(string: &str, pattern: &str) -> (r: bool)
    ensures
        r == matches_noncontiguous(string@, pattern@),
{
    let text_chars = chars_of(string);
    let pattern_chars = chars_of(pattern);
    let ws = split_whitespace(&text_chars);
    let ps = split_whitespace(&pattern_chars);
    let ghost wv = words(string@);
    let ghost pv = words(pattern@);
    let ghost mut g: Seq<int> = Seq::empty();
    let mut w: usize = 0;
    let mut k: usize = 0;
    while k < ps.len()
        invariant
            wv == words(string@),
            pv == words(pattern@),
            ws@.len() == wv.len(),
            forall|i: int| 0 <= i < ws@.len() ==> #[trigger] ws@[i]@ == wv[i],
            ps@.len() == pv.len(),
            forall|i: int| 0 <= i < ps@.len() ==> #[trigger] ps@[i]@ == pv[i],
            k <= ps.len(),
            w <= ws.len(),
            g.len() == k,
            forall|i: int|
                0 <= i < k ==> 0 <= #[trigger] g[i] < w && is_substring(pv[i], wv[g[i]]),
            forall|i: int, j: int| 0 <= i < j < k ==> g[i] < g[j],
            forall|idx: Seq<int>| #[trigger]
                is_ordered_embedding(wv, pv, idx) ==> (forall|i: int|
                    k <= i < pv.len() ==> #[trigger] idx[i] >= w),
        decreases ps.len() - k,
    {
        loop
            invariant_except_break
                w <= ws.len(),
                g.len() == k,
                forall|i: int|
                    0 <= i < k ==> 0 <= #[trigger] g[i] < w && is_substring(pv[i], wv[g[i]]),
                forall|i: int, j: int| 0 <= i < j < k ==> g[i] < g[j],
                forall|idx: Seq<int>| #[trigger]
                    is_ordered_embedding(wv, pv, idx) ==> (forall|i: int|
                        k <= i < pv.len() ==> #[trigger] idx[i] >= w),
            invariant
                wv == words(string@),
                pv == words(pattern@),
                ws@.len() == wv.len(),
                forall|i: int| 0 <= i < ws@.len() ==> #[trigger] ws@[i]@ == wv[i],
                ps@.len() == pv.len(),
                forall|i: int| 0 <= i < ps@.len() ==> #[trigger] ps@[i]@ == pv[i],
                k < ps.len(),
            ensures
                ws@.len() == wv.len(),
                0 < w <= ws.len(),
                g.len() == k + 1,
                forall|i: int|
                    0 <= i <= k ==> 0 <= #[trigger] g[i] < w && is_substring(pv[i], wv[g[i]]),
                forall|i: int, j: int| 0 <= i < j <= k ==> g[i] < g[j],
                forall|idx: Seq<int>| #[trigger]
                    is_ordered_embedding(wv, pv, idx) ==> (forall|i: int|
                        k < i < pv.len() ==> #[trigger] idx[i] >= w),
            decreases ws.len() - w,
        {
            if w == ws.len() {
                assert forall|idx: Seq<int>| !is_ordered_embedding(wv, pv, idx) by {
                    if is_ordered_embedding(wv, pv, idx) {
                        assert(idx[k as int] >= w);
                    }
                }
                return false;
            }
            let hit = contains_substring(&ws[w], &ps[k]);
            if hit {
                proof {
                    g = g.push(w as int);
                    assert forall|idx: Seq<int>| #[trigger]
                        is_ordered_embedding(wv, pv, idx) implies (forall|i: int|
                        k < i < pv.len() ==> #[trigger] idx[i] >= w + 1) by {
                        assert forall|i: int| k < i < pv.len() implies #[trigger] idx[i] >= w
                            + 1 by {
                            assert(idx[k as int] >= w);
                            assert(idx[k as int] < idx[i]);
                        }
                    }
                }
                w = w + 1;
                break;
            } else {
                proof {
                    assert forall|idx: Seq<int>| #[trigger]
                        is_ordered_embedding(wv, pv, idx) implies (forall|i: int|
                        k <= i < pv.len() ==> #[trigger] idx[i] >= w + 1) by {
                        assert(idx[k as int] >= w);
                        assert(idx[k as int] != w);
                        assert forall|i: int| k <= i < pv.len() implies #[trigger] idx[i] >= w
                            + 1 by {
                            if i > k {
                                assert(idx[k as int] < idx[i]);
                            }
                        }
                    }
                }
                w = w + 1;
            }
        }
        k = k + 1;
    }
    assert(is_ordered_embedding(wv, pv, g));
    true
}


/// Any text is found by itself: each of its words lies in the same word.
pub proof fn lemma_text_matches_itself(text: Seq<char>)
    ensures
        matches_noncontiguous(text, text),
{
    let ws = words(text);
    let idx = Seq::new(ws.len(), |i: int| i);
    assert forall|i: int| 0 <= i < idx.len() implies 0 <= #[trigger] idx[i] < ws.len()
        && is_substring(ws[i], ws[idx[i]]) by {
        assert(idx[i] == i);
        assert(ws[i].subrange(0int, 0int + ws[i].len()) == ws[i]);
    }
    assert(is_ordered_embedding(ws, ws, idx));
}

/// A pattern with no words (empty, or only white space) finds every text.
pub proof fn lemma_blank_pattern_matches(text: Seq<char>, pattern: Seq<char>)
    requires
        words(pattern).len() == 0,
    ensures
        matches_noncontiguous(text, pattern),
{
    assert(is_ordered_embedding(words(text), words(pattern), Seq::<int>::empty()));
}

/// Words added around a text do not stop a pattern from being found in it.
pub proof fn lemma_match_survives_surrounding_words(
    before: Seq<char>,
    text: Seq<char>,
    after: Seq<char>,
    pattern: Seq<char>,
)
    requires
        matches_noncontiguous(text, pattern),
    ensures
        matches_noncontiguous(before + seq![' '] + text + seq![' '] + after, pattern),
{
    let wt = words(before);
    let ws = words(text);
    let ps = words(pattern);
    assert(is_white_space(' '));
    lemma_words_split(before, ' ', text);
    lemma_words_split(before + seq![' '] + text, ' ', after);
    let all = words(before + seq![' '] + text + seq![' '] + after);
    assert(all == wt + ws + words(after));
    let idx = choose|idx: Seq<int>| is_ordered_embedding(ws, ps, idx);
    let moved = Seq::new(idx.len(), |i: int| idx[i] + wt.len());
    assert forall|i: int| 0 <= i < moved.len() implies 0 <= #[trigger] moved[i] < all.len()
        && is_substring(ps[i], all[moved[i]]) by {
        assert(0 <= idx[i] < ws.len());
        assert(all[moved[i]] == ws[idx[i]]);
    }
    assert forall|i: int, j: int| 0 <= i < j < moved.len() implies moved[i] < moved[j] by {
        assert(idx[i] < idx[j]);
    }
    assert(is_ordered_embedding(all, ps, moved));
}

/// A two-part pattern is found only where each of its parts is found.
pub proof fn lemma_pattern_parts_match(text: Seq<char>, first: Seq<char>, second: Seq<char>)
    requires
        matches_noncontiguous(text, first + seq![' '] + second),
    ensures
        matches_noncontiguous(text, first),
        matches_noncontiguous(text, second),
{
    let ws = words(text);
    let p1 = words(first);
    let p2 = words(second);
    assert(is_white_space(' '));
    lemma_words_split(first, ' ', second);
    let ps = words(first + seq![' '] + second);
    assert(ps == p1 + p2);
    let idx = choose|idx: Seq<int>| is_ordered_embedding(ws, ps, idx);
    let i1 = idx.take(p1.len() as int);
    let i2 = idx.skip(p1.len() as int);
    assert forall|i: int| 0 <= i < i1.len() implies 0 <= #[trigger] i1[i] < ws.len()
        && is_substring(p1[i], ws[i1[i]]) by {
        assert(i1[i] == idx[i]);
        assert(ps[i] == p1[i]);
    }
    assert forall|i: int, j: int| 0 <= i < j < i1.len() implies i1[i] < i1[j] by {
        assert(idx[i] < idx[j]);
    }
    assert(is_ordered_embedding(ws, p1, i1));
    assert forall|i: int| 0 <= i < i2.len() implies 0 <= #[trigger] i2[i] < ws.len()
        && is_substring(p2[i], ws[i2[i]]) by {
        assert(i2[i] == idx[i + p1.len()]);
        assert(ps[i + p1.len()] == p2[i]);
    }
    assert forall|i: int, j: int| 0 <= i < j < i2.len() implies i2[i] < i2[j] by {
        assert(idx[i + p1.len()] < idx[j + p1.len()]);
    }
    assert(is_ordered_embedding(ws, p2, i2));
}

/// `idx` places each element of `a` on an equal element of `b`, at strictly
/// increasing places.
pub open spec fn is_index_map<T>(a: Seq<T>, b: Seq<T>, idx: Seq<int>) -> bool {
    &&& idx.len() == a.len()
    &&& forall|i: int| 0 <= i < idx.len() ==> 0 <= #[trigger] idx[i] < b.len() && b[idx[i]] == a[i]
    &&& forall|i: int, j: int| 0 <= i < j < idx.len() ==> idx[i] < idx[j]
}

/// `a` is `b` with some elements left out, the others kept in order.
pub open spec fn is_subsequence<T>(a: Seq<T>, b: Seq<T>) -> bool {
    exists|idx: Seq<int>| is_index_map(a, b, idx)
}

proof fn lemma_recipe_ids_narrow(
    game_data: &GameData,
    entries: Seq<(u32, Recipe)>,
    locale: Locale,
    narrow: Seq<char>,
    wide: Seq<char>,
)
    requires
        forall|item_id: u32|
            #[trigger] item_matches(game_data, item_id, locale, narrow) ==> item_matches(
                game_data,
                item_id,
                locale,
                wide,
            ),
    ensures
        is_subsequence(
            matching_recipe_ids(game_data, entries, locale, narrow),
            matching_recipe_ids(game_data, entries, locale, wide),
        ),
    decreases entries.len(),
{
    let a = matching_recipe_ids(game_data, entries, locale, narrow);
    let b = matching_recipe_ids(game_data, entries, locale, wide);
    if entries.len() == 0 {
        assert(a.len() == 0);
        let idx = Seq::<int>::empty();
        assert(is_index_map(a, b, idx));
    } else {
        let rest = entries.drop_last();
        lemma_recipe_ids_narrow(game_data, rest, locale, narrow, wide);
        let a0 = matching_recipe_ids(game_data, rest, locale, narrow);
        let b0 = matching_recipe_ids(game_data, rest, locale, wide);
        let idx = choose|idx: Seq<int>| is_index_map(a0, b0, idx);
        let item = entries.last().1.item_id;
        if item_matches(game_data, item, locale, narrow) {
            let idx2 = idx.push(b0.len() as int);
            assert(b == b0.push(entries.last().0));
            assert(a == a0.push(entries.last().0));
            assert forall|i: int| 0 <= i < idx2.len() implies 0 <= #[trigger] idx2[i] < b.len()
                && b[idx2[i]] == a[i] by {
                if i < idx.len() {
                    assert(idx2[i] == idx[i]);
                }
            }
            assert forall|i: int, j: int| 0 <= i < j < idx2.len() implies idx2[i] < idx2[j] by {
                if j < idx.len() {
                    assert(idx2[i] == idx[i] && idx2[j] == idx[j]);
                } else {
                    assert(idx2[i] == idx[i]);
                }
            }
            assert(is_index_map(a, b, idx2));
        } else {
            assert(a == a0);
            assert forall|i: int| 0 <= i < idx.len() implies 0 <= #[trigger] idx[i] < b.len()
                && b[idx[i]] == a[i] by {
                assert(b0.len() <= b.len());
                assert(b[idx[i]] == b0[idx[i]]);
            }
            assert(is_index_map(a, b, idx));
        }
    }
}

/// More search words never add matches: the recipes found by two patterns joined
/// with a space are among, and in the same order as, those found by either one.
pub proof fn lemma_more_words_narrow_recipes(
    game_data: &GameData,
    entries: Seq<(u32, Recipe)>,
    locale: Locale,
    first: Seq<char>,
    second: Seq<char>,
)
    ensures
        is_subsequence(
            matching_recipe_ids(game_data, entries, locale, first + seq![' '] + second),
            matching_recipe_ids(game_data, entries, locale, first),
        ),
        is_subsequence(
            matching_recipe_ids(game_data, entries, locale, first + seq![' '] + second),
            matching_recipe_ids(game_data, entries, locale, second),
        ),
{
    let both = first + seq![' '] + second;
    assert forall|item_id: u32| #[trigger]
        item_matches(game_data, item_id, locale, both) implies item_matches(
        game_data,
        item_id,
        locale,
        first,
    ) && item_matches(game_data, item_id, locale, second) by {
        let name = game_data.base_name(item_id, locale)->0;
        lemma_pattern_parts_match(lowercase(name), first, second);
    }
    lemma_recipe_ids_narrow(game_data, entries, locale, both, first);
    lemma_recipe_ids_narrow(game_data, entries, locale, both, second);
}

/// `s` with every high-quality and collectable icon character taken out.
pub open spec fn without_icons(s: Seq<char>) -> Seq<char>
    decreases s.len(),
{
    if s.len() == 0 {
        Seq::empty()
    } else if s.last() == HQ_ICON_CHAR || s.last() == CL_ICON_CHAR {
        without_icons(s.drop_last())
    } else {
        without_icons(s.drop_last()).push(s.last())
    }
}

/// Takes every high-quality and collectable icon character out of `s`.
pub fn strip_icon_chars(s: &str) -> (r: String)
    ensures
        r@ == without_icons(s@),
{
    let cs = chars_of(s);
    let mut kept: Vec<char> = Vec::new();
    let mut i: usize = 0;
    while i < cs.len()
        invariant
            i <= cs.len(),
            cs@ == s@,
            kept@ == without_icons(cs@.take(i as int)),
        decreases cs.len() - i,
    {
        assert(cs@.take(i + 1).drop_last() == cs@.take(i as int));
        let c = cs[i];
        if c != HQ_ICON_CHAR && c != CL_ICON_CHAR {
            kept.push(c);
        }
        i = i + 1;
    }
    assert(cs@.take(cs.len() as int) == cs@);
    string_of(&kept)
}

/// The search pattern made of a search string: lowercased, without icons.
pub open spec fn search_pattern(search_string: Seq<char>) -> Seq<char> {
    without_icons(lowercase(search_string))
}

fn preprocess_pattern(pattern: &str) -> (r: String)
    ensures
        r@ == search_pattern(pattern@),
{
    let lower = to_lowercase(pattern);
    strip_icon_chars(lower.as_str())
}

/// An item is found by a pattern when its plain name in `locale` is known and,
/// lowercased, contains the pattern's words in order.
pub open spec fn item_matches(
    game_data: &GameData,
    item_id: u32,
    locale: Locale,
    pattern: Seq<char>,
) -> bool {
    match game_data.base_name(item_id, locale) {
        Some(name) => matches_noncontiguous(lowercase(name), pattern),
        None => false,
    }
}

/// The recipe ids of the entries whose item is found by `pattern`, in entry order.
pub open spec fn matching_recipe_ids(
    game_data: &GameData,
    entries: Seq<(u32, Recipe)>,
    locale: Locale,
    pattern: Seq<char>,
) -> Seq<u32>
    decreases entries.len(),
{
    if entries.len() == 0 {
        Seq::empty()
    } else {
        let found = matching_recipe_ids(game_data, entries.drop_last(), locale, pattern);
        if item_matches(game_data, entries.last().1.item_id, locale, pattern) {
            found.push(entries.last().0)
        } else {
            found
        }
    }
}

/// The positions of the consumables whose item is found by `pattern`, in order.
pub open spec fn matching_positions(
    game_data: &GameData,
    consumables: Seq<Consumable>,
    locale: Locale,
    pattern: Seq<char>,
) -> Seq<usize>
    decreases consumables.len(),
{
    if consumables.len() == 0 {
        Seq::empty()
    } else {
        let found = matching_positions(game_data, consumables.drop_last(), locale, pattern);
        if item_matches(game_data, consumables.last().item_id, locale, pattern) {
            found.push((consumables.len() - 1) as usize)
        } else {
            found
        }
    }
}

/// The consumables found in two lists put together are those found in the
/// first, followed by those found in the second, moved by the first's length.
pub proof fn lemma_positions_of_joined_lists(
    game_data: &GameData,
    first: Seq<Consumable>,
    second: Seq<Consumable>,
    locale: Locale,
    pattern: Seq<char>,
)
    requires
        first.len() + second.len() <= usize::MAX,
    ensures
        matching_positions(game_data, first + second, locale, pattern) == matching_positions(
            game_data,
            first,
            locale,
            pattern,
        ) + matching_positions(game_data, second, locale, pattern).map_values(
            |i: usize| (i + first.len()) as usize,
        ),
    decreases second.len(),
{
    let shift = |i: usize| (i + first.len()) as usize;
    let a = matching_positions(game_data, first, locale, pattern);
    if second.len() == 0 {
        assert(first + second == first);
        assert(matching_positions(game_data, second, locale, pattern).map_values(shift)
            =~= Seq::<usize>::empty());
        assert(a + Seq::<usize>::empty() == a);
    } else {
        let rest = second.drop_last();
        lemma_positions_of_joined_lists(game_data, first, rest, locale, pattern);
        let joined = first + second;
        assert(joined.drop_last() == first + rest);
        assert(joined.last() == second.last());
        let b0 = matching_positions(game_data, rest, locale, pattern);
        if item_matches(game_data, second.last().item_id, locale, pattern) {
            let last_pos = (second.len() - 1) as usize;
            assert(matching_positions(game_data, second, locale, pattern) == b0.push(last_pos));
            assert(b0.push(last_pos).map_values(shift) =~= b0.map_values(shift).push(
                shift(last_pos),
            ));
            assert(shift(last_pos) == (joined.len() - 1) as usize);
            assert(a + b0.map_values(shift).push(shift(last_pos)) =~= (a + b0.map_values(
                shift,
            )).push(shift(last_pos)));
        }
    }
}

/// A single recipe entry is found exactly when its item's plain name in the
/// locale is known and, lowercased, contains the pattern's words in order; the
/// other fields of the recipe play no part.
pub proof fn lemma_single_recipe_found(
    game_data: &GameData,
    recipe_id: u32,
    recipe: Recipe,
    locale: Locale,
    pattern: Seq<char>,
)
    ensures
        matching_recipe_ids(game_data, seq![(recipe_id, recipe)], locale, pattern) == (
        match game_data.base_name(recipe.item_id, locale) {
            Some(name) => if matches_noncontiguous(lowercase(name), pattern) {
                seq![recipe_id]
            } else {
                Seq::<u32>::empty()
            },
            None => Seq::<u32>::empty(),
        }),
{
    let e = seq![(recipe_id, recipe)];
    assert(e.drop_last() == Seq::<(u32, Recipe)>::empty());
    assert(e.last() == (recipe_id, recipe));
    assert(matching_recipe_ids(game_data, e.drop_last(), locale, pattern) == Seq::<u32>::empty());
    assert(Seq::<u32>::empty().push(recipe_id) == seq![recipe_id]);
}

/// The recipes found in two tables put together are those found in the first,
/// followed by those found in the second.
pub proof fn lemma_recipes_of_joined_tables(
    game_data: &GameData,
    first: Seq<(u32, Recipe)>,
    second: Seq<(u32, Recipe)>,
    locale: Locale,
    pattern: Seq<char>,
)
    ensures
        matching_recipe_ids(game_data, first + second, locale, pattern) == matching_recipe_ids(
            game_data,
            first,
            locale,
            pattern,
        ) + matching_recipe_ids(game_data, second, locale, pattern),
    decreases second.len(),
{
    let a = matching_recipe_ids(game_data, first, locale, pattern);
    if second.len() == 0 {
        assert(first + second == first);
        assert(a + Seq::<u32>::empty() == a);
    } else {
        let rest = second.drop_last();
        lemma_recipes_of_joined_tables(game_data, first, rest, locale, pattern);
        let joined = first + second;
        assert(joined.drop_last() == first + rest);
        assert(joined.last() == second.last());
        let b0 = matching_recipe_ids(game_data, rest, locale, pattern);
        assert(a + b0.push(second.last().0) == (a + b0).push(second.last().0));
    }
}

/// Two recipe tables with the same recipe ids and items, entry by entry, give the
/// same recipes found, whatever the other fields of their recipes (expert or not,
/// level scaling).
pub proof fn lemma_recipes_found_by_item_only(
    game_data: &GameData,
    first: Seq<(u32, Recipe)>,
    second: Seq<(u32, Recipe)>,
    locale: Locale,
    pattern: Seq<char>,
)
    requires
        first.len() == second.len(),
        forall|i: int|
            0 <= i < first.len() ==> #[trigger] first[i].0 == second[i].0 && first[i].1.item_id
                == second[i].1.item_id,
    ensures
        matching_recipe_ids(game_data, first, locale, pattern) == matching_recipe_ids(
            game_data,
            second,
            locale,
            pattern,
        ),
    decreases first.len(),
{
    if first.len() > 0 {
        let n = first.len() - 1;
        assert(first[n].0 == second[n].0);
        lemma_recipes_found_by_item_only(
            game_data,
            first.drop_last(),
            second.drop_last(),
            locale,
            pattern,
        );
    }
}

/// A single consumable is found, at place 0, exactly when its item's plain name in
/// the locale is known and, lowercased, contains the pattern's words in order.
pub proof fn lemma_single_consumable_found(
    game_data: &GameData,
    consumable: Consumable,
    locale: Locale,
    pattern: Seq<char>,
)
    ensures
        matching_positions(game_data, seq![consumable], locale, pattern) == (
        match game_data.base_name(consumable.item_id, locale) {
            Some(name) => if matches_noncontiguous(lowercase(name), pattern) {
                seq![0usize]
            } else {
                Seq::<usize>::empty()
            },
            None => Seq::<usize>::empty(),
        }),
{
    let e = seq![consumable];
    assert(e.drop_last() == Seq::<Consumable>::empty());
    assert(e.last() == consumable);
    assert(matching_positions(game_data, e.drop_last(), locale, pattern) == Seq::<usize>::empty());
    assert(Seq::<usize>::empty().push(0usize) == seq![0usize]);
}

fn item_found(game_data: &GameData, item_id: u32, locale: Locale, pattern: &str) -> (r: bool)
    ensures
        r == item_matches(game_data, item_id, locale, pattern@),
{
    match get_base_item_name(game_data, item_id, locale) {
        Some(name) => {
            let lower = to_lowercase(name.as_str());
            contains_noncontiguous(lower.as_str(), pattern)
        },
        None => false,
    }
}

/// The ids of the recipes whose item name, in `locale`, contains the words of
/// `search_string` in order (case and icons aside), in recipe table order.
pub fn find_recipes(game_data: &GameData, search_string: &str, locale: Locale) -> (r: Vec<u32>)
    ensures
        r@ == matching_recipe_ids(
            game_data,
            game_data.recipes.entries@,
            locale,
            search_pattern(search_string@),
        ),
{
    let pattern = preprocess_pattern(search_string);
    let entries = &game_data.recipes.entries;
    let mut found: Vec<u32> = Vec::new();
    let mut i: usize = 0;
    while i < entries.len()
        invariant
            i <= entries.len(),
            pattern@ == search_pattern(search_string@),
            entries@ == game_data.recipes.entries@,
            found@ == matching_recipe_ids(game_data, entries@.take(i as int), locale, pattern@),
        decreases entries.len() - i,
    {
        assert(entries@.take(i + 1).drop_last() == entries@.take(i as int));
        let (recipe_id, recipe) = entries[i];
        if item_found(game_data, recipe.item_id, locale, pattern.as_str()) {
            found.push(recipe_id);
        }
        i = i + 1;
    }
    assert(entries@.take(entries.len() as int) == entries@);
    found
}

fn find_consumables(
    game_data: &GameData,
    search_string: &str,
    locale: Locale,
    consumables: &[Consumable],
) -> (r: Vec<usize>)
    ensures
        r@ == matching_positions(game_data, consumables@, locale, search_pattern(search_string@)),
{
    let pattern = preprocess_pattern(search_string);
    let mut found: Vec<usize> = Vec::new();
    let mut i: usize = 0;
    while i < consumables.len()
        invariant
            i <= consumables.len(),
            pattern@ == search_pattern(search_string@),
            found@ == matching_positions(game_data, consumables@.take(i as int), locale, pattern@),
        decreases consumables.len() - i,
    {
        assert(consumables@.take(i + 1).drop_last() == consumables@.take(i as int));
        if item_found(game_data, consumables[i].item_id, locale, pattern.as_str()) {
            found.push(i);
        }
        i = i + 1;
    }
    assert(consumables@.take(consumables.len() as int) == consumables@);
    found
}

/// The positions, among the meals of the game data, of those whose item name in
/// `locale` contains the words of `search_string` in order.
pub fn find_meals(game_data: &GameData, search_string: &str, locale: Locale) -> (r: Vec<usize>)
    ensures
        r@ == matching_positions(
            game_data,
            game_data.meals@,
            locale,
            search_pattern(search_string@),
        ),
{
    find_consumables(game_data, search_string, locale, game_data.meals.as_slice())
}

/// The positions, among the potions of the game data, of those whose item name in
/// `locale` contains the words of `search_string` in order.
pub fn find_potions(game_data: &GameData, search_string: &str, locale: Locale) -> (r: Vec<
    usize,
>)
    ensures
        r@ == matching_positions(
            game_data,
            game_data.potions@,
            locale,
            search_pattern(search_string@),
        ),
{
    find_consumables(game_data, search_string, locale, game_data.potions.as_slice())
}

} // verus!

//! Dealing a new game: building the areas of the table from a deck.

use vstd::prelude::*;
use vstd::multiset::Multiset;

use rand::seq::SliceRandom;

use super::{
    area::{
        any::AnyArea,
        area_list::{lemma_all_cards_same, spec_all_cards, spec_ids, AreaList},
        foundation::Foundation,
        stock::Stock,
        tableaux::Tableaux,
        talon::Talon,
        AreaId,
    },
    card::{Card, Rank, Suit},
    deck::{spec_standard_deck, Deck},
    game::Game,
    settings::{DealerMode, GameSettings},
};
use crate::utils::{lemma_empty_to_multiset, split_off_bounded, spec_bounded_sub};

verus! {

/// Where row `level` of the tableaux deal starts in the order cards are dealt: row `l` deals
/// one card to each of the piles `l..len`.
pub open spec fn spec_row_start(len: int, level: int) -> int
    decreases level,
{
    if level <= 0 {
        0
    } else {
        spec_row_start(len, level - 1) + len - (level - 1)
    }
}

/// The position, in dealing order, of the card dealt to pile `index` in row `level`.
pub open spec fn spec_deal_position(len: int, level: int, index: int) -> int {
    spec_row_start(len, level) + index - level
}

/// Twice the start of row `level` is `2 * level * len - level * (level - 1)`.
proof fn lemma_row_start_closed(len: int, level: int)
    requires
        0 <= level,
    ensures
        2 * spec_row_start(len, level) == 2 * level * len - level * (level - 1),
    decreases level,
{
    if level == 0 {
        assert(2 * level * len - level * (level - 1) == 0) by (nonlinear_arith)
            requires
                level == 0,
        ;
    } else {
        lemma_row_start_closed(len, level - 1);
        let prev = spec_row_start(len, level - 1);
        let cur = spec_row_start(len, level);
        assert(cur == prev + len - (level - 1));
        assert(2 * cur == 2 * level * len - level * (level - 1)) by (nonlinear_arith)
            requires
                cur == prev + len - (level - 1),
                2 * prev == 2 * (level - 1) * len - (level - 1) * (level - 1 - 1),
        ;
    }
}

/// The number of cards on pile `j` once the deal has reached pile `index` of row `level`:
/// earlier rows are complete, and in the current row the piles before `index` have their card.
pub open spec fn spec_pile_len(level: int, index: int, j: int) -> int {
    if j < level {
        j + 1
    } else if j < index {
        level + 1
    } else {
        level
    }
}

/// Whether `piles` holds the cards dealt from `dealt` up to pile `index` of row `level`:
/// pile `j` has `spec_pile_len(level, index, j)` cards, its card of row `l` being the one at
/// position `spec_deal_position(len, l, j)` of `dealt`.
pub open spec fn spec_dealt_piles(
    piles: Seq<Vec<Card>>,
    dealt: Seq<Card>,
    len: int,
    level: int,
    index: int,
) -> bool {
    &&& piles.len() == len
    &&& forall|j: int| 0 <= j < len ==> (#[trigger] piles[j])@.len() == spec_pile_len(level, index, j)
    &&& forall|j: int, l: int|
        0 <= j < len && 0 <= l < piles[j]@.len() ==> #[trigger] piles[j]@[l] == dealt[
            spec_deal_position(len, l, j)]
}

/// All cards on a sequence of piles, as a multiset.
pub open spec fn spec_piles_cards(piles: Seq<Vec<Card>>) -> Multiset<Card>
    decreases piles.len(),
{
    if piles.len() == 0 {
        Multiset::empty()
    } else {
        spec_piles_cards(piles.drop_last()).add(piles.last()@.to_multiset())
    }
}

/// Adding a card to one pile adds it to the cards of all piles.
proof fn lemma_piles_cards_push(piles: Seq<Vec<Card>>, j: int, pile: Vec<Card>, card: Card)
    requires
        0 <= j < piles.len(),
        pile@ == piles[j]@.push(card),
    ensures
        spec_piles_cards(piles.update(j, pile)) == spec_piles_cards(piles).insert(card),
    decreases piles.len(),
{
    broadcast use vstd::multiset::group_multiset_axioms;
    broadcast use vstd::seq_lib::group_seq_properties;

    let updated = piles.update(j, pile);
    if j == piles.len() - 1 {
        assert(updated.drop_last() =~= piles.drop_last());
        assert(updated.last() == pile);
        assert(piles[j]@.push(card).to_multiset() =~= piles[j]@.to_multiset().insert(card));
        assert(spec_piles_cards(updated) =~= spec_piles_cards(piles).insert(card));
    } else {
        lemma_piles_cards_push(piles.drop_last(), j, pile, card);
        assert(updated.drop_last() =~= piles.drop_last().update(j, pile));
        assert(updated.last() == piles.last());
        assert(spec_piles_cards(updated) =~= spec_piles_cards(piles).insert(card));
    }
}

/// Piles that are all empty hold no cards.
proof fn lemma_piles_cards_empty(piles: Seq<Vec<Card>>)
    requires
        forall|i: int| 0 <= i < piles.len() ==> (#[trigger] piles[i])@.len() == 0,
    ensures
        spec_piles_cards(piles) == Multiset::<Card>::empty(),
    decreases piles.len(),
{
    broadcast use vstd::multiset::group_multiset_axioms;
    broadcast use vstd::seq_lib::group_seq_properties;

    if piles.len() > 0 {
        lemma_piles_cards_empty(piles.drop_last());
        assert(piles.last()@ =~= Seq::<Card>::empty());
        assert(spec_piles_cards(piles) =~= Multiset::<Card>::empty());
    }
}

/// Deals the cards of `dealt`, in order, row by row onto `len` piles: row `l` puts one card on
/// each pile from `l` to `len - 1`, until the cards run out.
fn deal_piles(dealt: &Vec<Card>, len: usize) -> (piles: Vec<Vec<Card>>)
    requires
        len <= 255,
        dealt@.len() <= spec_row_start(len as int, len as int),
    ensures
        exists|level: int, index: int|
            {
                &&& 0 <= level <= index <= len
                &&& index < len || level == len
                &&& spec_deal_position(len as int, level, index) == dealt@.len()
                &&& spec_dealt_piles(piles@, dealt@, len as int, level, index)
            },
        piles@.len() == len,
        spec_piles_cards(piles@) == dealt@.to_multiset(),
{
    let mut piles: Vec<Vec<Card>> = Vec::new();
    let mut j: usize = 0;
    while j < len
        invariant
            j <= len,
            piles@.len() == j,
            forall|i: int| 0 <= i < j ==> (#[trigger] piles@[i])@.len() == 0,
        decreases len - j,
    {
        piles.push(Vec::new());
        j = j + 1;
    }
    proof {
        lemma_piles_cards_empty(piles@);
        lemma_empty_to_multiset(dealt@.take(0));
    }
    let n = dealt.len();
    let mut level: usize = 0;
    let mut index: usize = 0;
    let mut p: usize = 0;
    if len == 0 {
        proof {
            assert(spec_deal_position(0, 0, 0) == 0);
            assert(dealt@ =~= Seq::<Card>::empty());
            lemma_empty_to_multiset(dealt@);
            assert(0 <= 0int <= 0int <= len && (0int < len || 0int == len) && spec_deal_position(
                len as int,
                0,
                0,
            ) == dealt@.len() && spec_dealt_piles(piles@, dealt@, len as int, 0, 0));
        }
        return piles;
    }
    while p < n
        invariant
            n == dealt@.len(),
            0 < len <= 255,
            n <= spec_row_start(len as int, len as int),
            p <= n,
            level <= index <= len,
            index < len || level == len,
            p == spec_deal_position(len as int, level as int, index as int),
            spec_dealt_piles(piles@, dealt@, len as int, level as int, index as int),
            spec_piles_cards(piles@) == dealt@.take(p as int).to_multiset(),
        decreases n - p,
    {
        assert(index < len);
        let ghost old_piles = piles@;
        let card = dealt[p];
        piles[index].push(card);
        proof {
            lemma_piles_cards_push(old_piles, index as int, piles@[index as int], card);
            assert(old_piles.update(index as int, piles@[index as int]) =~= piles@);
            assert(dealt@.take(p + 1) =~= dealt@.take(p as int).push(card));
            assert(dealt@.take(p + 1).to_multiset() =~= dealt@.take(p as int).to_multiset().insert(
                card,
            )) by {
                broadcast use vstd::seq_lib::group_seq_properties;
            }
        }
        let ghost new_level: int = if index + 1 < len { level as int } else { level + 1 };
        let ghost new_index: int = if index + 1 < len { index + 1 } else { level + 1 };
        proof {
            assert forall|j: int| 0 <= j < len implies (#[trigger] piles@[j])@.len()
                == spec_pile_len(new_level, new_index, j) by {
                if j != index {
                    assert(piles@[j] == old_piles[j]);
                }
            }
            assert forall|j: int, l: int|
                0 <= j < len && 0 <= l < piles@[j]@.len() implies #[trigger] piles@[j]@[l]
                == dealt@[spec_deal_position(len as int, l, j)] by {
                if j != index {
                    assert(piles@[j] == old_piles[j]);
                } else if l < level {
                    assert(piles@[j]@[l] == old_piles[j]@[l]);
                }
            }
        }
        if index + 1 < len {
            index = index + 1;
        } else {
            level = level + 1;
            index = level;
        }
        p = p + 1;
    }
    proof {
        assert(dealt@.take(n as int) =~= dealt@);
        let lv = level as int;
        let ix = index as int;
        assert(0 <= lv <= ix <= len && (ix < len || lv == len) && spec_deal_position(
            len as int,
            lv,
            ix,
        ) == dealt@.len() && spec_dealt_piles(piles@, dealt@, len as int, lv, ix));
    }
    piles
}

/// The id of the area at position `k` of a standard deal: the stock, the talon, the four
/// foundations in suit order, then the tableaux in order.
pub open spec fn spec_standard_id(k: int) -> AreaId {
    if k == 0 {
        AreaId::Stock
    } else if k == 1 {
        AreaId::Talon
    } else if k < 6 {
        AreaId::Foundation(Suit::spec_values()[k - 2])
    } else {
        AreaId::Tableaux((k - 6) as u8)
    }
}

/// Where the deal splits the deck: the cards below stay in the stock, the cards from here up
/// go to the tableaux.
pub open spec fn spec_deal_split(deck_len: int, tableaux_len: int) -> int {
    spec_bounded_sub(deck_len as usize, spec_row_start(tableaux_len, tableaux_len) as usize) as int
}

/// The cards for the tableaux in the order they are dealt: from the top of the deck down.
pub open spec fn spec_deal_order(deck: Seq<Card>, tableaux_len: int) -> Seq<Card> {
    deck.skip(spec_deal_split(deck.len() as int, tableaux_len)).reverse()
}

/// Whether the areas from position 6 on are `len` unselected tableaux holding the cards of
/// `dealt` as dealt row by row up to pile `index` of row `level`, which is where `dealt` runs
/// out; the top card of each non-empty tableaux is face up.
pub open spec fn spec_tableaux_dealt(
    areas: Seq<AnyArea>,
    dealt: Seq<Card>,
    len: int,
    level: int,
    index: int,
) -> bool {
    &&& 0 <= level <= index <= len
    &&& index < len || level == len
    &&& spec_deal_position(len, level, index) == dealt.len()
    &&& forall|j: int|
        0 <= j < len ==> (#[trigger] areas[6 + j] matches AnyArea::Tableaux(t) && t.cards@.len()
            == spec_pile_len(level, index, j) && t.selection is None && t.revealed_len == (if t.cards@.len()
            > 0 {
            1int
        } else {
            0int
        }) && forall|l: int|
            0 <= l < t.cards@.len() ==> #[trigger] t.cards@[l] == dealt[spec_deal_position(len, l, j)])
}

/// Whether `game` is the standard deal of `deck` (its top is the end of the sequence) under
/// `settings`: the stock holds the bottom of the deck, the talon and foundations are empty, and
/// the tableaux hold the top cards as dealt row by row, with the top card of each face up. The
/// stock is selected, and the game holds exactly the cards of the deck.
pub open spec fn spec_dealt_from(game: Game, deck: Seq<Card>, settings: GameSettings) -> bool {
    &&& game.wf()
    &&& game.last_area == AreaId::Stock
    &&& game.areas.selected == 0
    &&& game.areas.areas@.len() == 6 + settings.tableaux_len
    &&& game.areas.spec_all_cards() == deck.to_multiset()
    &&& forall|k: int|
        0 <= k < game.areas.areas@.len() ==> #[trigger] game.areas.areas@[k].spec_id()
            == spec_standard_id(k)
    &&& game.areas.areas@[0] matches AnyArea::Stock(stock) && stock.cards@ == deck.take(
        spec_deal_split(deck.len() as int, settings.tableaux_len as int),
    ) && stock.draw_from_stock_len == settings.draw_from_stock_len
    &&& game.areas.areas@[1] matches AnyArea::Talon(talon) && talon.cards@.len() == 0
        && talon.fanned_len == 0
    &&& forall|k: int|
        2 <= k < 6 ==> (#[trigger] game.areas.areas@[k] matches AnyArea::Foundation(f)
            && f.cards@.len() == 0 && f.take_from_foundation == settings.take_from_foundation
            && f.selection is None)
    &&& exists|level: int, index: int|
        #[trigger] spec_tableaux_dealt(
            game.areas.areas@,
            spec_deal_order(deck, settings.tableaux_len as int),
            settings.tableaux_len as int,
            level,
            index,
        )
}

/// Deals a game from `deck` (its top is the end of the sequence). The top cards go to the
/// tableaux, one row at a time: the first row gives one card to every tableaux, the next to
/// every tableaux but the first, and so on, so that tableaux `i` receives `i + 1` cards when
/// there are enough. The top card of each tableaux is face up. The rest of the deck becomes the
/// stock; the talon and the foundations start empty. The stock is selected.
pub fn deal_from_deck(deck: Vec<Card>, settings: &GameSettings) -> (game: Game)
    ensures
        spec_dealt_from(game, deck@, *settings),
{
    let mut deck = deck;
    let ghost full_deck = deck@;
    let _deck_len = deck.len();
    let len: usize = settings.tableaux_len as usize;
    assert(len * (len + 1) <= 255 * 256) by (nonlinear_arith)
        requires
            len <= 255,
    ;
    let card_count = len * (len + 1) / 2;
    proof {
        lemma_row_start_closed(len as int, len as int);
        assert(card_count == spec_row_start(len as int, len as int)) by (nonlinear_arith)
            requires
                card_count == len * (len + 1) / 2,
                2 * spec_row_start(len as int, len as int) == 2 * len * len - len * (len - 1),
        ;
    }
    let mut cards = split_off_bounded(&mut deck, card_count);
    let ghost split = spec_deal_split(full_deck.len() as int, len as int);
    let ghost top = cards@;
    proof {
        assert(split == spec_bounded_sub(full_deck.len() as usize, card_count) as int);
        assert(deck@ == full_deck.take(split));
        assert(top == full_deck.skip(split));
        assert(top.len() <= card_count);
    }
    // Deal from the top of the deck down.
    let mut dealt: Vec<Card> = Vec::new();
    while cards.len() > 0
        invariant
            top.len() == cards@.len() + dealt@.len(),
            cards@ == top.take(cards@.len() as int),
            dealt@ == top.skip(cards@.len() as int).reverse(),
        decreases cards@.len(),
    {
        let card = cards.pop().unwrap();
        dealt.push(card);
        assert(dealt@ =~= top.skip(cards@.len() as int).reverse());
    }
    proof {
        assert(top.skip(0) =~= top);
        assert(dealt@ == spec_deal_order(full_deck, len as int));
        assert(dealt@.len() <= spec_row_start(len as int, len as int));
    }
    let mut piles = deal_piles(&dealt, len);
    let ghost dealt_piles = piles@;
    let ghost (lv, ix) = choose|level: int, index: int|
        {
            &&& 0 <= level <= index <= len
            &&& index < len || level == len
            &&& spec_deal_position(len as int, level, index) == dealt@.len()
            &&& spec_dealt_piles(dealt_piles, dealt@, len as int, level, index)
        };
    let stock = Stock::create(deck, settings);
    let talon = Talon::create(Vec::new(), 0);
    let mut areas: Vec<AnyArea> = Vec::new();
    areas.push(AnyArea::Stock(stock));
    areas.push(AnyArea::Talon(talon));
    proof {
        broadcast use vstd::multiset::group_multiset_axioms;
        lemma_empty_to_multiset(talon.cards@);
        lemma_empty_to_multiset(Seq::<Card>::empty());
        assert(areas@.drop_last().drop_last() =~= Seq::<AnyArea>::empty());
        assert(areas@[0].spec_cards() == full_deck.take(split));
        assert(areas@[1].spec_cards().len() == 0);
        assert(spec_all_cards(Seq::<AnyArea>::empty()) == Multiset::<Card>::empty());
        assert(spec_all_cards(areas@.drop_last()) == spec_all_cards(Seq::<AnyArea>::empty()).add(
            full_deck.take(split).to_multiset(),
        ));
        assert(spec_all_cards(areas@.drop_last()) =~= full_deck.take(split).to_multiset());
        assert(spec_all_cards(areas@) =~= full_deck.take(split).to_multiset());
    }
    let suits = Suit::values();
    let mut k: usize = 0;
    while k < 4
        invariant
            suits@ == Suit::spec_values(),
            k <= 4,
            areas@.len() == 2 + k,
            forall|a: int| 0 <= a < areas@.len() ==> #[trigger] areas@[a].spec_id() == spec_standard_id(a),
            forall|a: int| 0 <= a < areas@.len() ==> (#[trigger] areas@[a]).wf() && !areas@[a].spec_selected(),
            areas@[0] matches AnyArea::Stock(stock) && stock.cards@ == full_deck.take(split)
                && stock.draw_from_stock_len == settings.draw_from_stock_len,
            areas@[1] matches AnyArea::Talon(talon) && talon.cards@.len() == 0 && talon.fanned_len == 0,
            forall|a: int|
                2 <= a < areas@.len() ==> (#[trigger] areas@[a] matches AnyArea::Foundation(f)
                    && f.cards@.len() == 0 && f.take_from_foundation == settings.take_from_foundation
                    && f.selection is None),
            spec_all_cards(areas@) == full_deck.take(split).to_multiset(),
        decreases 4 - k,
    {
        let foundation = Foundation::create(suits[k], Vec::new(), settings);
        let ghost before = areas@;
        areas.push(AnyArea::Foundation(foundation));
        proof {
            assert(areas@.drop_last() == before);
            lemma_empty_to_multiset(foundation.cards@);
        }
        k = k + 1;
    }
    let mut j: usize = 0;
    while j < len
        invariant
            len == settings.tableaux_len,
            piles@.len() == len,
            dealt_piles.len() == len,
            j <= len,
            areas@.len() == 6 + j,
            forall|a: int| 0 <= a < areas@.len() ==> #[trigger] areas@[a].spec_id() == spec_standard_id(a),
            forall|a: int| 0 <= a < areas@.len() ==> (#[trigger] areas@[a]).wf() && !areas@[a].spec_selected(),
            areas@[0] matches AnyArea::Stock(stock) && stock.cards@ == full_deck.take(split)
                && stock.draw_from_stock_len == settings.draw_from_stock_len,
            areas@[1] matches AnyArea::Talon(talon) && talon.cards@.len() == 0 && talon.fanned_len == 0,
            forall|a: int|
                2 <= a < 6 ==> (#[trigger] areas@[a] matches AnyArea::Foundation(f)
                    && f.cards@.len() == 0 && f.take_from_foundation == settings.take_from_foundation
                    && f.selection is None),
            forall|a: int| j <= a < len ==> #[trigger] piles@[a] == dealt_piles[a],
            forall|a: int|
                0 <= a < j ==> (#[trigger] areas@[6 + a] matches AnyArea::Tableaux(t)
                    && t.cards@ == dealt_piles[a]@ && t.selection is None
                    && t.revealed_len == (if t.cards@.len() > 0 { 1int } else { 0int })),
            spec_all_cards(areas@) == full_deck.take(split).to_multiset().add(
                spec_piles_cards(dealt_piles.take(j as int)),
            ),
        decreases len - j,
    {
        let mut pile: Vec<Card> = Vec::new();
        std::mem::swap(&mut pile, &mut piles[j]);
        let revealed_len: usize = if pile.len() > 0 { 1 } else { 0 };
        let tableaux = Tableaux::create(j as u8, revealed_len, pile);
        let ghost before = areas@;
        areas.push(AnyArea::Tableaux(tableaux));
        proof {
            assert(areas@.drop_last() == before);
            assert(dealt_piles.take(j + 1).drop_last() =~= dealt_piles.take(j as int));
            assert(dealt_piles.take(j + 1).last() == dealt_piles[j as int]);
            assert(areas@[6 + j as int] == AnyArea::Tableaux(tableaux));
            assert(areas@.last().spec_cards() == dealt_piles[j as int]@);
            broadcast use vstd::multiset::group_multiset_axioms;
            assert(spec_all_cards(areas@) =~= full_deck.take(split).to_multiset().add(
                spec_piles_cards(dealt_piles.take(j + 1)),
            ));
        }
        j = j + 1;
    }
    proof {
        assert(dealt_piles.take(len as int) =~= dealt_piles);
        vstd::seq_lib::lemma_multiset_commutative(full_deck.take(split), full_deck.skip(split));
        assert(full_deck.take(split) + full_deck.skip(split) =~= full_deck);
        full_deck.skip(split).lemma_reverse_to_multiset();
        assert(spec_ids(areas@).no_duplicates()) by {
            assert forall|a: int, b: int|
                0 <= a < areas@.len() && 0 <= b < areas@.len() && a != b implies spec_ids(
                areas@,
            )[a] != spec_ids(areas@)[b] by {
                assert(spec_ids(areas@)[a] == spec_standard_id(a));
                assert(spec_ids(areas@)[b] == spec_standard_id(b));
            }
        }
    }
    let ghost final_areas = areas@;
    let list = AreaList::new(areas);
    proof {
        assert forall|k: int| 0 <= k < list.areas@.len() implies #[trigger] list.areas@[k].spec_id()
            == spec_standard_id(k) by {
            assert(list.spec_ids()[k] == spec_ids(final_areas)[k]);
        }
        assert(list.areas@[0].spec_cards() == final_areas[0].spec_cards());
        assert(list.areas@[0].spec_same_kind(&final_areas[0]));
        lemma_all_cards_same(list.areas@, final_areas);
        assert(spec_piles_cards(dealt_piles) == full_deck.skip(split).to_multiset());
        assert(list.spec_all_cards() =~= full_deck.to_multiset());
        assert forall|j: int| 0 <= j < len implies (#[trigger] list.areas@[6 + j] matches AnyArea::Tableaux(t)
            && t.cards@.len() == spec_pile_len(lv, ix, j) && t.selection is None && t.revealed_len
            == (if t.cards@.len() > 0 {
            1int
        } else {
            0int
        }) && forall|l: int|
            0 <= l < t.cards@.len() ==> #[trigger] t.cards@[l] == dealt@[spec_deal_position(
                len as int,
                l,
                j,
            )]) by {
            assert(list.areas@[6 + j] == final_areas[6 + j]);
            assert(dealt_piles[j]@.len() == spec_pile_len(lv, ix, j));
        }
        assert(spec_tableaux_dealt(list.areas@, dealt@, len as int, lv, ix));
        assert(list.spec_contains(AreaId::Stock)) by {
            assert(list.areas@[0].spec_id() == AreaId::Stock);
        }
        assert(list.spec_contains(AreaId::Talon)) by {
            assert(list.areas@[1].spec_id() == AreaId::Talon);
        }
        assert forall|suit: Suit| #[trigger] list.spec_contains(AreaId::Foundation(suit)) by {
            let k = 2 + suit.spec_index() as int;
            assert(list.areas@[k].spec_id() == spec_standard_id(k));
        }
    }
    Game::new(list)
}


/// The thirteen cards of `suit`, from Ace to King.
pub open spec fn spec_suit_cards(suit: Suit) -> Seq<Card> {
    Seq::new(13, |r: int| Card { suit, rank: Rank::spec_values()[r] })
}

/// The cards of the first `k` suits, in deck order.
pub open spec fn spec_suits_cards(k: int) -> Seq<Card>
    decreases k,
{
    if k <= 0 {
        Seq::empty()
    } else {
        spec_suits_cards(k - 1) + spec_suit_cards(Suit::spec_values()[k - 1])
    }
}

/// A fresh deck is the cards of each suit in turn.
proof fn lemma_standard_deck_by_suit(k: int)
    requires
        0 <= k <= 4,
    ensures
        spec_suits_cards(k) == spec_standard_deck().take(13 * k),
    decreases k,
{
    if k > 0 {
        lemma_standard_deck_by_suit(k - 1);
        let prev = spec_standard_deck().take(13 * (k - 1));
        let cur = spec_standard_deck().take(13 * k);
        let block = spec_suit_cards(Suit::spec_values()[k - 1]);
        assert forall|i: int| 0 <= i < 13 * k implies #[trigger] cur[i] == (prev + block)[i] by {
            if i >= 13 * (k - 1) {
                let r = i - 13 * (k - 1);
                assert(i / 13 == k - 1);
                assert(i % 13 == r);
            }
        }
        assert(cur =~= prev + block);
    }
}

/// Whether `game` is laid out as the auto-win dealer deals on `settings`: the standard areas,
/// each foundation holding the cards of its suit from Ace to King, every other area empty.
pub open spec fn spec_auto_win_dealt(game: Game, settings: GameSettings) -> bool {
    &&& game.areas.areas@.len() == 6 + settings.tableaux_len
    &&& forall|k: int|
        0 <= k < game.areas.areas@.len() ==> #[trigger] game.areas.areas@[k].spec_id()
            == spec_standard_id(k)
    &&& forall|k: int|
        0 <= k < game.areas.areas@.len() ==> (#[trigger] game.areas.areas@[k].spec_cards() == if 2
            <= k < 6 {
            spec_suit_cards(Suit::spec_values()[k - 2])
        } else {
            Seq::empty()
        })
}

/// Deals every card onto its foundation, Ace first and King last. The stock, the talon and the
/// tableaux start empty.
#[derive(Debug)]
pub struct AutoWinDealer;

/// Deals a shuffled deck by the standard rules (see `deal_from_deck`).
#[derive(Debug)]
pub struct StandardDealer<S: Shuffle> {
    pub shuffle: S,
}

/// Makes the deck that a standard deal starts from.
pub trait Shuffle {
    /// Whether `deck` is one of the decks that `create_deck` may return.
    spec fn spec_produces(deck: Seq<Card>) -> bool;

    /// A deck of the 52 standard cards, in some order.
    fn create_deck() -> (deck: Vec<Card>)
        ensures
            Self::spec_produces(deck@),
            deck@.to_multiset() == spec_standard_deck().to_multiset(),
    ;
}

/// The deck in its fresh order.
#[derive(Debug)]
pub struct InOrderShuffle;

/// The deck in a random order.
#[derive(Debug)]
pub struct RandomShuffle;

impl Shuffle for InOrderShuffle {
    open spec fn spec_produces(deck: Seq<Card>) -> bool {
        deck == spec_standard_deck()
    }

    fn create_deck() -> (deck: Vec<Card>) {
        let mut fresh = Deck::new();
        fresh.deal_rest()
    }
}

/// Shuffles `cards` in place with the thread's random number generator, through
/// `rand::seq::SliceRandom::shuffle`. Claimed: the result is a permutation of the input (the
/// method only swaps elements). Which permutation comes out depends on chance and is not stated.
#[verifier::external_body]
fn shuffle_cards(cards: &mut Vec<Card>)
    ensures
        final(cards)@.to_multiset() == old(cards)@.to_multiset(),
        final(cards)@.len() == old(cards)@.len(),
{
    cards.shuffle(&mut rand::thread_rng());
}

impl Shuffle for RandomShuffle {
    open spec fn spec_produces(deck: Seq<Card>) -> bool {
        deck.to_multiset() == spec_standard_deck().to_multiset()
    }

    fn create_deck() -> (deck: Vec<Card>) {
        let mut deck = InOrderShuffle::create_deck();
        shuffle_cards(&mut deck);
        deck
    }
}

/// Deals a new game.
pub trait Dealer {
    /// A new, well-formed game holding exactly the 52 standard cards.
    fn deal_game(&self, settings: &GameSettings) -> (game: Game)
        ensures
            game.wf(),
            game.areas.spec_all_cards() == spec_standard_deck().to_multiset(),
    ;
}

impl<S: Shuffle> Dealer for StandardDealer<S> {
    fn deal_game(&self, settings: &GameSettings) -> (game: Game)
        ensures
            exists|deck: Seq<Card>|
                S::spec_produces(deck) && #[trigger] spec_dealt_from(game, deck, *settings),
    {
        let deck = S::create_deck();
        let ghost d = deck@;
        let game = deal_from_deck(deck, settings);
        assert(spec_dealt_from(game, d, *settings));
        game
    }
}

impl Dealer for AutoWinDealer {
    fn deal_game(&self, settings: &GameSettings) -> (game: Game)
        ensures
            game.wf(),
            spec_auto_win_dealt(game, *settings),
    {
        let stock = Stock::create(Vec::new(), settings);
        let talon = Talon::create(Vec::new(), 0);
        let mut areas: Vec<AnyArea> = Vec::new();
        areas.push(AnyArea::Stock(stock));
        areas.push(AnyArea::Talon(talon));
        proof {
            broadcast use vstd::multiset::group_multiset_axioms;
            lemma_empty_to_multiset(Seq::<Card>::empty());
            assert(areas@.drop_last().drop_last() =~= Seq::<AnyArea>::empty());
            assert(spec_all_cards(Seq::<AnyArea>::empty()) == Multiset::<Card>::empty());
            assert(spec_all_cards(areas@.drop_last()) =~= Multiset::<Card>::empty());
            assert(spec_all_cards(areas@) =~= Multiset::<Card>::empty());
            assert(spec_suits_cards(0) =~= Seq::<Card>::empty());
        }
        let suits = Suit::values();
        let ranks = Rank::values();
        let mut k: usize = 0;
        while k < 4
            invariant
                suits@ == Suit::spec_values(),
                ranks@ == Rank::spec_values(),
                k <= 4,
                areas@.len() == 2 + k,
                areas@[0] is Stock,
                forall|a: int| 0 <= a < areas@.len() ==> #[trigger] areas@[a].spec_id() == spec_standard_id(a),
                forall|a: int| 0 <= a < areas@.len() ==> (#[trigger] areas@[a]).wf() && !areas@[a].spec_selected(),
                forall|a: int|
                    0 <= a < areas@.len() ==> (#[trigger] areas@[a].spec_cards() == if 2 <= a < 6 {
                        spec_suit_cards(Suit::spec_values()[a - 2])
                    } else {
                        Seq::empty()
                    }),
                spec_all_cards(areas@) == spec_suits_cards(k as int).to_multiset(),
            decreases 4 - k,
        {
            let suit = suits[k];
            let mut cards: Vec<Card> = Vec::new();
            let mut r: usize = 0;
            while r < 13
                invariant
                    ranks@ == Rank::spec_values(),
                    r <= 13,
                    cards@ == spec_suit_cards(suit).take(r as int),
                decreases 13 - r,
            {
                cards.push(Card { suit, rank: ranks[r] });
                r = r + 1;
                assert(cards@ =~= spec_suit_cards(suit).take(r as int));
            }
            assert(cards@ =~= spec_suit_cards(suit));
            let foundation = Foundation::create(suit, cards, settings);
            let ghost before = areas@;
            areas.push(AnyArea::Foundation(foundation));
            proof {
                broadcast use vstd::multiset::group_multiset_axioms;
                assert(areas@.drop_last() == before);
                vstd::seq_lib::lemma_multiset_commutative(
                    spec_suits_cards(k as int),
                    spec_suit_cards(suit),
                );
            }
            k = k + 1;
        }
        let len: usize = settings.tableaux_len as usize;
        let mut j: usize = 0;
        while j < len
            invariant
                len == settings.tableaux_len,
                j <= len,
                areas@.len() == 6 + j,
                areas@[0] is Stock,
                forall|a: int| 0 <= a < areas@.len() ==> #[trigger] areas@[a].spec_id() == spec_standard_id(a),
                forall|a: int| 0 <= a < areas@.len() ==> (#[trigger] areas@[a]).wf() && !areas@[a].spec_selected(),
                forall|a: int|
                    0 <= a < areas@.len() ==> (#[trigger] areas@[a].spec_cards() == if 2 <= a < 6 {
                        spec_suit_cards(Suit::spec_values()[a - 2])
                    } else {
                        Seq::empty()
                    }),
                spec_all_cards(areas@) == spec_suits_cards(4).to_multiset(),
            decreases len - j,
        {
            let tableaux = Tableaux::create(j as u8, 0, Vec::new());
            let ghost before = areas@;
            areas.push(AnyArea::Tableaux(tableaux));
            proof {
                broadcast use vstd::multiset::group_multiset_axioms;
                assert(areas@.drop_last() == before);
                lemma_empty_to_multiset(tableaux.cards@);
                assert(spec_all_cards(areas@) =~= spec_suits_cards(4).to_multiset());
            }
            j = j + 1;
        }
        proof {
            lemma_standard_deck_by_suit(4);
            assert(spec_standard_deck().take(52) =~= spec_standard_deck());
            assert(spec_ids(areas@).no_duplicates()) by {
                assert forall|a: int, b: int|
                    0 <= a < areas@.len() && 0 <= b < areas@.len() && a != b implies spec_ids(
                    areas@,
                )[a] != spec_ids(areas@)[b] by {
                    assert(spec_ids(areas@)[a] == spec_standard_id(a));
                    assert(spec_ids(areas@)[b] == spec_standard_id(b));
                }
            }
        }
        let ghost final_areas = areas@;
        let list = AreaList::new(areas);
        proof {
            assert forall|k: int| 0 <= k < list.areas@.len() implies #[trigger] list.areas@[k].spec_id()
                == spec_standard_id(k) by {
                assert(list.spec_ids()[k] == spec_ids(final_areas)[k]);
            }
            assert forall|k: int| 0 <= k < list.areas@.len() implies #[trigger] list.areas@[k].spec_cards()
                == final_areas[k].spec_cards() by {}
            lemma_all_cards_same(list.areas@, final_areas);
            assert(list.spec_contains(AreaId::Stock)) by {
                assert(list.areas@[0].spec_id() == AreaId::Stock);
            }
            assert(list.spec_contains(AreaId::Talon)) by {
                assert(list.areas@[1].spec_id() == AreaId::Talon);
            }
            assert forall|suit: Suit| #[trigger] list.spec_contains(AreaId::Foundation(suit)) by {
                let k = 2 + suit.spec_index() as int;
                assert(list.areas@[k].spec_id() == spec_standard_id(k));
            }
        }
        let game = Game::new(list);
        game
    }
}

/// The dealer of each dealer mode.
#[derive(Debug)]
pub enum ModeDealer {
    AutoWin(AutoWinDealer),
    InOrder(StandardDealer<InOrderShuffle>),
    Random(StandardDealer<RandomShuffle>),
}

/// The dealer for `mode`: the auto-win dealer, or a standard dealer on a fresh or a shuffled
/// deck.
pub fn create_dealer(mode: DealerMode) -> (dealer: ModeDealer)
    ensures
        mode is AutoWin <==> dealer is AutoWin,
        mode is InOrder <==> dealer is InOrder,
        mode is Random <==> dealer is Random,
{
    match mode {
        DealerMode::AutoWin => ModeDealer::AutoWin(AutoWinDealer),
        DealerMode::InOrder => ModeDealer::InOrder(StandardDealer { shuffle: InOrderShuffle }),
        DealerMode::Random => ModeDealer::Random(StandardDealer { shuffle: RandomShuffle }),
    }
}

impl Dealer for ModeDealer {
    fn deal_game(&self, settings: &GameSettings) -> (game: Game)
        ensures
            self is AutoWin ==> spec_auto_win_dealt(game, *settings),
            self is InOrder ==> spec_dealt_from(game, spec_standard_deck(), *settings),
            self is Random ==> exists|deck: Seq<Card>|
                deck.to_multiset() == spec_standard_deck().to_multiset()
                    && #[trigger] spec_dealt_from(game, deck, *settings),
    {
        match self {
            ModeDealer::AutoWin(dealer) => dealer.deal_game(settings),
            ModeDealer::InOrder(dealer) => dealer.deal_game(settings),
            ModeDealer::Random(dealer) => dealer.deal_game(settings),
        }
    }
}

} // verus!

//! A game in progress: the areas of the table and the actions the player takes on them.

use vstd::prelude::*;

use super::{
    area::{any::AnyArea, area_list::{lemma_snapshot_determines, AreaList}, AreaId},
    card::{Card, Rank, Suit},
    stack::Stack,
};
use crate::utils::spec_bounded_sub;

verus! {

/// Whether the areas include the stock, the talon and one foundation for each suit.
pub open spec fn spec_has_standard_areas(areas: &AreaList) -> bool {
    &&& areas.spec_contains(AreaId::Stock)
    &&& areas.spec_contains(AreaId::Talon)
    &&& forall|suit: Suit| #[trigger] areas.spec_contains(AreaId::Foundation(suit))
}

/// Lists with the same areas as a list with the standard areas have them too.
pub proof fn lemma_standard_areas_kept(new: &AreaList, old: &AreaList)
    requires
        new.spec_same_areas(old),
        spec_has_standard_areas(old),
    ensures
        spec_has_standard_areas(new),
        forall|id: AreaId| #[trigger] old.spec_contains(id) ==> new.spec_contains(id),
{
    new.lemma_same_areas_contains(old);
    assert forall|suit: Suit| #[trigger] new.spec_contains(AreaId::Foundation(suit)) by {
        assert(old.spec_contains(AreaId::Foundation(suit)));
    }
    assert(old.spec_contains(AreaId::Stock));
    assert(old.spec_contains(AreaId::Talon));
}

/// A game in progress.
#[derive(Debug)]
pub struct Game {
    pub areas: AreaList,
    /// The area that was selected before the last move of the selection.
    pub last_area: AreaId,
}

/// The actions a player can take.
#[derive(Copy, Clone, Debug, PartialEq, Eq, Structural)]
pub enum Action {
    /// Move the selection to the given area.
    MoveTo(AreaId),
    /// Move the selection back to the previously selected area.
    MoveBack,
    /// Move the selection to the first foundation that accepts it.
    MoveToFoundation,
    /// Move the selection to the nearest area on the left that accepts it.
    MoveLeft,
    /// Move the selection to the nearest area on the right that accepts it.
    MoveRight,
    /// Select one more card.
    SelectMore,
    /// Select one card fewer.
    SelectLess,
    /// Activate the selected area.
    Activate,
    /// Return held cards to where they came from.
    ReturnHeld,
}

impl Game {
    /// The areas are well formed and standard, and the last area is one of them.
    pub open spec fn wf(&self) -> bool {
        &&& self.areas.wf()
        &&& spec_has_standard_areas(&self.areas)
        &&& self.areas.spec_contains(self.last_area)
    }

    /// Whether every foundation reports a King as its top card (its first card, see
    /// `AnyArea::spec_peeked_card`) and is not holding cards up.
    pub open spec fn spec_is_win(&self) -> bool {
        forall|suit: Suit|
            #[trigger] self.areas.spec_contains(AreaId::Foundation(suit)) ==> {
                let area = self.areas.areas@[self.areas.spec_index_of(AreaId::Foundation(suit))];
                &&& area.spec_held_from() is None
                &&& area.spec_cards().len() > 0
                &&& area.spec_cards()[0].rank == Rank::King
            }
    }

    /// A new game on the given areas; the last area starts as the selected one.
    pub fn new(areas: AreaList) -> (game: Game)
        requires
            areas.wf(),
            spec_has_standard_areas(&areas),
        ensures
            game.wf(),
            game.areas == areas,
            game.last_area == areas.spec_selected_area().spec_id(),
    {
        let last_area = areas.selected().id();
        Game { areas, last_area }
    }

    /// Whether the game is won (see `spec_is_win`).
    pub fn is_win(&self) -> (b: bool)
        requires
            self.wf(),
        ensures
            b == self.spec_is_win(),
    {
        let suits = Suit::values();
        let mut i: usize = 0;
        while i < suits.len()
            invariant
                suits@ == Suit::spec_values(),
                i <= 4,
                self.wf(),
                forall|j: int|
                    0 <= j < i ==> {
                        let area = self.areas.areas@[self.areas.spec_index_of(
                            AreaId::Foundation(#[trigger] suits@[j]),
                        )];
                        &&& area.spec_held_from() is None
                        &&& area.spec_cards().len() > 0
                        &&& area.spec_cards()[0].rank == Rank::King
                    },
            decreases 4 - i,
        {
            let id = AreaId::Foundation(suits[i]);
            match self.areas.get_index(id) {
                Some(index) => {
                    proof {
                        assert(index == self.areas.spec_index_of(id));
                    }
                    let area = &self.areas.areas[index];
                    let held = area.is_held();
                    let complete = match area.peek_top_card() {
                        Some(card) => card.rank == Rank::King,
                        None => false,
                    };
                    if held || !complete {
                        proof {
                            assert(self.areas.spec_contains(id));
                        }
                        return false;
                    }
                },
                None => {
                    proof {
                        assert(self.areas.spec_contains(id));
                    }
                },
            }
            i = i + 1;
        }
        proof {
            assert forall|suit: Suit|
                #[trigger] self.areas.spec_contains(AreaId::Foundation(suit)) implies {
                let area = self.areas.areas@[self.areas.spec_index_of(AreaId::Foundation(suit))];
                &&& area.spec_held_from() is None
                &&& area.spec_cards().len() > 0
                &&& area.spec_cards()[0].rank == Rank::King
            } by {
                let j: int = suit.spec_index() as int;
                assert(suits@[j] == suit);
            }
        }
        true
    }

    /// The ids of all areas, in display order.
    pub fn area_ids(&self) -> (ids: Vec<AreaId>)
        ensures
            ids@ == self.areas.spec_ids(),
    {
        self.areas.area_ids()
    }

    /// The layout of the area with the given id, if there is one.
    pub fn stack(&self, area_id: AreaId) -> (stack: Option<Stack<'_>>)
        requires
            self.wf(),
        ensures
            stack is Some <==> self.areas.spec_contains(area_id),
            stack matches Some(s) ==> s.cards@ == self.areas.areas@[self.areas.spec_index_of(
                area_id,
            )].spec_cards() && s.details == self.areas.areas@[self.areas.spec_index_of(
                area_id,
            )].spec_stack_details(),
    {
        match self.areas.get_index(area_id) {
            Some(index) => {
                proof {
                    assert(index == self.areas.spec_index_of(area_id));
                }
                Some(self.areas.areas[index].as_stack())
            },
            None => None,
        }
    }

    /// Applies a player action and returns the ids of the areas that changed (see
    /// `spec_applied`). Every action keeps the same areas and the same cards in play: cards only
    /// move between areas.
    pub fn apply_action(&mut self, action: Action) -> (ids: Vec<AreaId>)
        requires
            old(self).wf(),
            action matches Action::MoveTo(id) ==> old(self).areas.spec_contains(id),
        ensures
            final(self).wf(),
            final(self).areas.spec_same_areas(&old(self).areas),
            final(self).areas.spec_all_cards() == old(self).areas.spec_all_cards(),
            spec_applied(*old(self), *final(self), action, ids@),
    {
        action.apply(self)
    }

    /// The id of the selected area.
    pub open spec fn spec_selected_id(&self) -> AreaId {
        self.areas.spec_selected_area().spec_id()
    }
}

/// How moving the selection to `target` changes the game from `old` to `new`, where `ids` are
/// the ids reported as changed. Moving to the selected area changes nothing but the last area,
/// which becomes the selected one. Otherwise, where the selected area allows the move, the
/// selection and any held cards go to the target, the previously selected area becomes the
/// last area, and both areas are reported; where it does not, no cards move, the selection
/// stays and nothing is reported.
pub open spec fn spec_move_to(old: Game, new: Game, target: AreaId, ids: Seq<AreaId>) -> bool {
    let sel = old.spec_selected_id();
    if target == sel {
        &&& ids.len() == 0
        &&& new.areas.areas@ == old.areas.areas@
        &&& new.areas.selected == old.areas.selected
        &&& new.last_area == sel
    } else {
        let t = old.areas.spec_index_of(target);
        let source = old.areas.spec_selected_area();
        if old.areas.spec_move_allowed(old.areas.areas@[t]) {
            &&& ids == seq![sel, target]
            &&& new.last_area == sel
            &&& new.areas.selected == t
            &&& new.areas.spec_selected_area().spec_held_from() == source.spec_held_from()
            &&& new.areas.areas@[t].spec_cards() == old.areas.areas@[t].spec_cards()
                + source.spec_hand()
            &&& new.areas.areas@[old.areas.selected as int].spec_cards() + source.spec_hand()
                == source.spec_cards()
            &&& new.areas.spec_others_unchanged(&old.areas, t, old.areas.selected as int)
        } else {
            &&& ids.len() == 0
            &&& new.last_area == old.last_area
            &&& new.areas.spec_same_cards(&old.areas)
            &&& new.areas.selected == old.areas.selected
            &&& new.areas.spec_selected_area().spec_held_from() == source.spec_held_from()
            &&& new.areas.spec_selected_area().spec_hand() == source.spec_hand()
            &&& forall|k: int|
                0 <= k < old.areas.areas@.len() && k != old.areas.selected
                    ==> #[trigger] new.areas.areas@[k].spec_snapshot()
                    == old.areas.areas@[k].spec_snapshot()
        }
    }
}

/// Whether a try of the move to `target` in `old` ends the search for a move: the target is the
/// selected area, or the selected area allows the move.
pub open spec fn spec_move_stops(old: Game, target: AreaId) -> bool {
    target == old.spec_selected_id() || old.areas.spec_move_allowed(
        old.areas.areas@[old.areas.spec_index_of(target)],
    )
}

/// How the cards lie after the selection moved from the selected area of `old` to the area at
/// position `t` of `new`: the target got the cards the selected area held, which it still
/// holds; the area left lost them; every other area kept its cards.
pub open spec fn spec_moved_cards(old: Game, new: Game, t: int) -> bool {
    let s = old.areas.selected as int;
    let source = old.areas.spec_selected_area();
    &&& new.areas.selected == t
    &&& new.areas.spec_selected_area().spec_held_from() == source.spec_held_from()
    &&& new.areas.areas@[t].spec_cards() == old.areas.areas@[t].spec_cards() + source.spec_hand()
    &&& new.areas.areas@[s].spec_cards() + source.spec_hand() == source.spec_cards()
    &&& forall|k: int|
        0 <= k < old.areas.areas@.len() && k != t && k != s ==> #[trigger] new.areas.areas@[k].spec_cards()
            == old.areas.areas@[k].spec_cards()
}

/// How trying the moves `moves` in order changes the game from `old` to `new`, where `ids`
/// are the ids reported as changed. The search ends at the first target that is the selected
/// area (which stays selected and becomes the last area) or that the selected area allows the
/// move to (which then gets the selection and any held cards, see `spec_moved_cards`, the area
/// left becoming the last area, and both being reported). When no target ends the search, no cards move, the
/// selection and the last area stay, and nothing is reported.
pub open spec fn spec_first_move(old: Game, new: Game, moves: Seq<AreaId>, ids: Seq<AreaId>) -> bool {
    let sel = old.spec_selected_id();
    &&& ids.len() > 0 ==> exists|j: int|
        0 <= j < moves.len() && moves[j] != sel && #[trigger] moves[j] == new.spec_selected_id()
            && ids == seq![sel, moves[j]] && new.last_area == sel
    &&& ids.len() == 0 ==> {
        &&& new.areas.spec_same_cards(&old.areas)
        &&& new.areas.selected == old.areas.selected
        &&& new.last_area == old.last_area || new.last_area == sel
    }
    &&& (forall|k: int| 0 <= k < moves.len() ==> !#[trigger] spec_move_stops(old, moves[k]))
        ==> ids.len() == 0 && new.last_area == old.last_area
    &&& forall|j: int|
        0 <= j < moves.len() && #[trigger] spec_move_stops(old, moves[j]) && (forall|k: int|
            0 <= k < j ==> !#[trigger] spec_move_stops(old, moves[k])) ==> if moves[j] == sel {
            ids.len() == 0 && new.last_area == sel
        } else {
            &&& ids == seq![sel, moves[j]]
            &&& new.spec_selected_id() == moves[j]
            &&& spec_moved_cards(old, new, old.areas.spec_index_of(moves[j]))
        }
}

/// The areas going left from the selection and wrapping around, the selected area last.
pub open spec fn spec_left_moves(areas: AreaList) -> Seq<AreaId> {
    let n = areas.areas@.len() as int;
    Seq::new(n as nat, |k: int| areas.spec_ids()[(areas.selected - 1 - k) % n])
}

/// The areas going right from the selection and wrapping around, the selected area last.
pub open spec fn spec_right_moves(areas: AreaList) -> Seq<AreaId> {
    let n = areas.areas@.len() as int;
    Seq::new(n as nat, |k: int| areas.spec_ids()[(areas.selected + 1 + k) % n])
}

/// How activating the selected area changes the areas from `old` to `new`, where `ids` are
/// the ids reported as changed. The stock draws its top cards (as many as its settings say,
/// or all that are left) onto the talon, or, when empty, takes back all the talon's cards;
/// both are reported. Any other area changes only its own state (see `AnyArea::spec_activates`)
/// and is reported, unless it had nothing to activate.
pub open spec fn spec_activated(old: AreaList, new: AreaList, ids: Seq<AreaId>) -> bool {
    &&& new.selected == old.selected
    &&& match old.spec_selected_area() {
        AnyArea::Stock(stock) => {
            let t = old.spec_index_of(AreaId::Talon);
            let talon_cards = old.areas@[t].spec_cards();
            &&& ids == seq![AreaId::Stock, AreaId::Talon]
            &&& new.spec_others_unchanged(&old, old.selected as int, t)
            &&& if stock.cards@.len() > 0 {
                let split = spec_bounded_sub(
                    stock.cards@.len() as usize,
                    stock.draw_from_stock_len,
                ) as int;
                &&& new.spec_selected_area().spec_cards() == stock.cards@.take(split)
                &&& new.areas@[t].spec_cards() == talon_cards + stock.cards@.skip(split)
            } else {
                &&& new.spec_selected_area().spec_cards() == talon_cards
                &&& new.areas@[t].spec_cards().len() == 0
            }
        },
        _ => {
            &&& new.spec_same_cards(&old)
            &&& new.spec_others_unchanged(&old, old.selected as int, old.selected as int)
            &&& old.spec_selected_area().spec_activates(new.spec_selected_area())
            &&& if old.spec_selected_area().spec_activation_fails() {
                ids.len() == 0
            } else {
                ids == seq![old.spec_selected_area().spec_id()]
            }
        },
    }
}

/// How selecting one card more (`more`) or fewer changes the areas from `old` to `new`, where
/// `ids` are the ids reported as changed: only the selected area changes, as
/// `AnyArea::spec_resizes` says, none of its cards move, and it is reported when its selection
/// changed.
pub open spec fn spec_resized(old: AreaList, new: AreaList, ids: Seq<AreaId>, more: bool) -> bool {
    &&& new.selected == old.selected
    &&& new.spec_same_cards(&old)
    &&& new.spec_others_unchanged(&old, old.selected as int, old.selected as int)
    &&& new.spec_selected_area().spec_held_from() == old.spec_selected_area().spec_held_from()
    &&& old.spec_selected_area().spec_resizes(new.spec_selected_area(), more)
    &&& if old.spec_selected_area().spec_can_resize(more) {
        ids == seq![old.spec_selected_area().spec_id()]
    } else {
        ids.len() == 0
    }
}

/// How returning held cards changes the areas from `old` to `new`, where `ids` are the ids
/// reported as changed: with nothing held nothing changes; cards held over the area they came
/// from are put down there; others go back with the selection onto the area they came from.
pub open spec fn spec_returned(old: AreaList, new: AreaList, ids: Seq<AreaId>) -> bool {
    let sel = old.spec_selected_area();
    &&& sel.spec_held_from() is None ==> ids.len() == 0 && new.areas@ == old.areas@
        && new.selected == old.selected
    &&& sel.spec_held_from() == Some(sel.spec_id()) ==> ids == seq![sel.spec_id()]
        && new.selected == old.selected && new.spec_selected_area().spec_held_from() is None
        && new.spec_same_cards(&old)
    &&& sel.spec_held_from() matches Some(source) ==> (source != sel.spec_id()
        && !old.spec_contains(source) ==> ids.len() == 0 && new.areas@ == old.areas@
        && new.selected == old.selected)
    &&& sel.spec_held_from() matches Some(source) ==> (source != sel.spec_id() && old.spec_contains(
        source,
    ) && old.areas@[old.spec_index_of(source)] is Stock ==> ids.len() == 0 && new.spec_same_cards(
        &old,
    ) && new.selected == old.selected)
    &&& sel.spec_held_from() matches Some(source) ==> (source != sel.spec_id() && old.spec_contains(
        source,
    ) && !(old.areas@[old.spec_index_of(source)] is Stock) ==> {
        let k = old.spec_index_of(source);
        &&& ids == seq![sel.spec_id(), source]
        &&& new.selected == k
        &&& new.areas@[k].spec_cards() == old.areas@[k].spec_cards() + sel.spec_hand()
        &&& new.areas@[old.selected as int].spec_cards() + sel.spec_hand() == sel.spec_cards()
    })
}

/// What a player action does to the game, from `old` to `new`, where `ids` are the ids of the
/// areas reported as changed: the moves of the selection go to an area, back to the last area,
/// to the first foundation that allows it, or to the nearest area on the left or right that
/// allows it; the other actions keep the last area.
pub open spec fn spec_applied(old: Game, new: Game, action: Action, ids: Seq<AreaId>) -> bool {
    match action {
        Action::MoveTo(id) => spec_move_to(old, new, id, ids),
        Action::MoveBack => spec_move_to(old, new, old.last_area, ids),
        Action::MoveToFoundation => spec_first_move(
            old,
            new,
            Suit::spec_values().map_values(|suit: Suit| AreaId::Foundation(suit)),
            ids,
        ),
        Action::MoveLeft => spec_first_move(old, new, spec_left_moves(old.areas), ids),
        Action::MoveRight => spec_first_move(old, new, spec_right_moves(old.areas), ids),
        Action::SelectMore => new.last_area == old.last_area && spec_resized(
            old.areas,
            new.areas,
            ids,
            true,
        ),
        Action::SelectLess => new.last_area == old.last_area && spec_resized(
            old.areas,
            new.areas,
            ids,
            false,
        ),
        Action::Activate => new.last_area == old.last_area && spec_activated(
            old.areas,
            new.areas,
            ids,
        ),
        Action::ReturnHeld => new.last_area == old.last_area && spec_returned(
            old.areas,
            new.areas,
            ids,
        ),
    }
}

/// In a well-formed list, the position of an area's id is the area's own position.
proof fn lemma_index_of_own_id(areas: AreaList, k: int)
    requires
        areas.wf(),
        0 <= k < areas.areas@.len(),
    ensures
        areas.spec_contains(areas.areas@[k].spec_id()),
        areas.spec_index_of(areas.areas@[k].spec_id()) == k,
{
    let id = areas.areas@[k].spec_id();
    assert(areas.spec_contains(id));
    let i = areas.spec_index_of(id);
    assert(areas.areas@[i].spec_id() == id);
}

/// Whether the selection can move to another area depends only on what the selected area
/// holds and on the kinds, cards and selection states of the other areas; a list that agrees
/// with `old` on these agrees on the move.
proof fn lemma_move_allowed_kept(cur: AreaList, old: AreaList, target: AreaId)
    requires
        cur.wf(),
        old.wf(),
        cur.spec_same_areas(&old),
        cur.spec_same_cards(&old),
        cur.selected == old.selected,
        old.spec_contains(target),
        cur.spec_selected_area().spec_held_from() == old.spec_selected_area().spec_held_from(),
        cur.spec_selected_area().spec_hand() == old.spec_selected_area().spec_hand(),
        forall|k: int|
            0 <= k < old.areas@.len() && k != old.selected ==> #[trigger] cur.areas@[k].spec_snapshot()
                == old.areas@[k].spec_snapshot(),
    ensures
        cur.spec_contains(target),
        cur.spec_index_of(target) == old.spec_index_of(target),
        target != old.spec_selected_area().spec_id() ==> cur.spec_move_allowed(
            cur.areas@[cur.spec_index_of(target)],
        ) == old.spec_move_allowed(old.areas@[old.spec_index_of(target)]),
{
    let k = old.spec_index_of(target);
    assert(old.areas@[k].spec_id() == target);
    assert(cur.areas@[k].spec_id() == target);
    lemma_index_of_own_id(cur, k);
    if target != old.spec_selected_area().spec_id() {
        assert(k != old.selected);
        let a = cur.areas@[k];
        let b = old.areas@[k];
        assert(a.spec_same_kind(&b));
        assert(a.spec_cards() == b.spec_cards());
        lemma_snapshot_determines(a, b);
    }
}

/// Moving back undoes a move: when the selected area holds nothing, a move of the selection to
/// another area that takes it, followed by a move back, brings the selection back to the area
/// it left, leaves every area with its cards, reports both areas each time, and leaves the
/// other area as the last area. The area left must be one that can be selected again (the
/// stock, or an area with cards): the move back to an empty talon, foundation or tableaux is
/// refused.
pub proof fn lemma_move_back_undoes_move(
    g0: Game,
    g1: Game,
    g2: Game,
    target: AreaId,
    ids1: Seq<AreaId>,
    ids2: Seq<AreaId>,
)
    requires
        g0.wf(),
        g1.wf(),
        g1.areas.spec_same_areas(&g0.areas),
        g0.areas.spec_contains(target),
        target != g0.spec_selected_id(),
        g0.areas.spec_selected_area().spec_held_from() is None,
        g0.areas.spec_selected_area().spec_can_select(),
        spec_applied(g0, g1, Action::MoveTo(target), ids1),
        g1.spec_selected_id() == target,
        g2.areas.spec_same_areas(&g1.areas),
        spec_applied(g1, g2, Action::MoveBack, ids2),
    ensures
        ids1 == seq![g0.spec_selected_id(), target],
        g1.last_area == g0.spec_selected_id(),
        ids2 == seq![target, g0.spec_selected_id()],
        g2.spec_selected_id() == g0.spec_selected_id(),
        g2.areas.selected == g0.areas.selected,
        g2.areas.spec_same_cards(&g0.areas),
        g2.last_area == target,
{
    let s0 = g0.areas.selected as int;
    let sel0 = g0.spec_selected_id();
    let t = g0.areas.spec_index_of(target);
    let source = g0.areas.spec_selected_area();
    assert(g0.areas.areas@[t].spec_id() == target);
    assert(g0.areas.spec_move_allowed(g0.areas.areas@[t])) by {
        if !g0.areas.spec_move_allowed(g0.areas.areas@[t]) {
            assert(g1.areas.areas@[s0].spec_id() == sel0);
        }
    }
    assert(source.spec_hand() =~= Seq::<Card>::empty());
    assert(g1.areas.spec_same_cards(&g0.areas)) by {
        assert forall|k: int| 0 <= k < g1.areas.areas@.len() implies #[trigger] g1.areas.areas@[k].spec_cards()
            == g0.areas.areas@[k].spec_cards() by {
            if k == t {
                assert(g1.areas.areas@[t].spec_cards() =~= g0.areas.areas@[t].spec_cards());
            } else if k == s0 {
                assert(g1.areas.areas@[s0].spec_cards() =~= source.spec_cards());
            }
        }
    }
    assert(g1.areas.areas@[t].spec_id() == target);
    assert(g1.spec_selected_id() == target);
    assert(g1.areas.areas@[s0].spec_id() == sel0);
    lemma_index_of_own_id(g1.areas, s0);
    let back = g1.areas.areas@[s0];
    assert(back.spec_same_kind(&source));
    assert(back.spec_cards() == source.spec_cards());
    assert(back.spec_can_select());
    let source1 = g1.areas.spec_selected_area();
    assert(source1.spec_held_from() is None);
    assert(source1.spec_hand() =~= Seq::<Card>::empty());
    assert(g2.areas.spec_same_cards(&g1.areas)) by {
        assert forall|k: int| 0 <= k < g2.areas.areas@.len() implies #[trigger] g2.areas.areas@[k].spec_cards()
            == g1.areas.areas@[k].spec_cards() by {
            if k == s0 {
                assert(g2.areas.areas@[s0].spec_cards() =~= g1.areas.areas@[s0].spec_cards());
            } else if k == t {
                assert(g2.areas.areas@[t].spec_cards() =~= source1.spec_cards());
            }
        }
    }
}

/// Selecting one card fewer undoes selecting one card more: when selecting more changed the
/// selected tableaux (which selects at least one card), selecting fewer right after reports it again and brings its selection,
/// its cards and every other area back to what they were.
pub proof fn lemma_select_less_undoes_select_more(
    g0: Game,
    g1: Game,
    g2: Game,
    ids1: Seq<AreaId>,
    ids2: Seq<AreaId>,
)
    requires
        g0.wf(),
        g1.wf(),
        spec_applied(g0, g1, Action::SelectMore, ids1),
        ids1.len() > 0,
        g0.areas.spec_selected_area() matches AnyArea::Tableaux(t) ==> (t.selection matches Some(
            s,
        ) && s.len >= 1),
        spec_applied(g1, g2, Action::SelectLess, ids2),
    ensures
        ids2 == ids1,
        g2.areas.selected == g0.areas.selected,
        g2.areas.spec_selected_area().spec_snapshot() == g0.areas.spec_selected_area().spec_snapshot(),
        g2.areas.spec_same_cards(&g0.areas),
        forall|k: int|
            0 <= k < g0.areas.areas@.len() && k != g0.areas.selected ==> #[trigger] g2.areas.areas@[k]
                == g0.areas.areas@[k],
        g2.last_area == g0.last_area,
{
    let a0 = g0.areas.spec_selected_area();
    let a1 = g1.areas.spec_selected_area();
    assert(a0.spec_can_resize(true));
    assert(a1.spec_can_resize(false));
    assert forall|k: int| 0 <= k < g2.areas.areas@.len() implies #[trigger] g2.areas.areas@[k].spec_cards()
        == g0.areas.areas@[k].spec_cards() by {
        assert(g2.areas.areas@[k].spec_cards() == g1.areas.areas@[k].spec_cards());
    }
    assert forall|k: int|
        0 <= k < g0.areas.areas@.len() && k != g0.areas.selected implies #[trigger] g2.areas.areas@[k]
        == g0.areas.areas@[k] by {
        assert(g2.areas.areas@[k] == g1.areas.areas@[k]);
    }
}

impl Action {
    /// Applies the action to the game; see [`Game::apply_action`].
    fn apply(self, game: &mut Game) -> (ids: Vec<AreaId>)
        requires
            old(game).wf(),
            self matches Action::MoveTo(id) ==> old(game).areas.spec_contains(id),
        ensures
            final(game).wf(),
            final(game).areas.spec_same_areas(&old(game).areas),
            final(game).areas.spec_all_cards() == old(game).areas.spec_all_cards(),
            spec_applied(*old(game), *final(game), self, ids@),
    {
        match self {
            Action::MoveTo(area_id) => {
                let moves = vec![area_id];
                assert(moves@ =~= seq![area_id]);
                self.make_first_valid_move(game, moves)
            },
            Action::MoveBack => {
                let moves = vec![game.last_area];
                assert(moves@ =~= seq![old(game).last_area]);
                self.make_first_valid_move(game, moves)
            },
            Action::MoveToFoundation => {
                let suits = Suit::values();
                let mut moves: Vec<AreaId> = Vec::new();
                let mut i: usize = 0;
                while i < suits.len()
                    invariant
                        suits@ == Suit::spec_values(),
                        i <= suits@.len(),
                        moves@ == Seq::new(i as nat, |j: int| AreaId::Foundation(suits@[j])),
                    decreases suits@.len() - i,
                {
                    moves.push(AreaId::Foundation(suits[i]));
                    i = i + 1;
                    assert(moves@ =~= Seq::new(i as nat, |j: int| AreaId::Foundation(suits@[j])));
                }
                assert(moves@ =~= Suit::spec_values().map_values(
                    |suit: Suit| AreaId::Foundation(suit),
                ));
                self.make_first_valid_move(game, moves)
            },
            Action::MoveLeft => {
                let moves = game.areas.iter_left_from_selection();
                proof {
                    assert forall|k: int| 0 <= k < moves@.len() implies game.areas.spec_contains(
                        #[trigger] moves@[k],
                    ) by {
                        let n = game.areas.areas@.len() as int;
                        let i = (game.areas.selected - 1 - k) % n;
                        assert(0 <= i < n) by (nonlinear_arith)
                            requires n > 0, i == (game.areas.selected - 1 - k) % n;
                        assert(game.areas.areas@[i].spec_id() == moves@[k]);
                    }
                    assert(moves@ =~= spec_left_moves(game.areas));
                }
                self.make_first_valid_move(game, moves)
            },
            Action::MoveRight => {
                let moves = game.areas.iter_right_from_selection();
                proof {
                    assert forall|k: int| 0 <= k < moves@.len() implies game.areas.spec_contains(
                        #[trigger] moves@[k],
                    ) by {
                        let n = game.areas.areas@.len() as int;
                        let i = (game.areas.selected + 1 + k) % n;
                        assert(0 <= i < n) by (nonlinear_arith)
                            requires n > 0, i == (game.areas.selected + 1 + k) % n;
                        assert(game.areas.areas@[i].spec_id() == moves@[k]);
                    }
                    assert(moves@ =~= spec_right_moves(game.areas));
                }
                self.make_first_valid_move(game, moves)
            },
            _ => {
                let result = match self {
                    Action::SelectMore => game.areas.select_more(),
                    Action::SelectLess => game.areas.select_less(),
                    Action::Activate => game.areas.activate_selected(),
                    _ => game.areas.return_held(),
                };
                proof {
                    lemma_standard_areas_kept(&game.areas, &old(game).areas);
                }
                match result {
                    Ok(ids) => ids,
                    Err(_) => Vec::new(),
                }
            },
        }
    }

    /// Tries the moves in order and makes the first that succeeds, remembering the area the
    /// selection left. Returns the ids of the areas that changed, or none if no move succeeded.
    fn make_first_valid_move(self, game: &mut Game, moves: Vec<AreaId>) -> (ids: Vec<AreaId>)
        requires
            old(game).wf(),
            forall|k: int| 0 <= k < moves@.len() ==> old(game).areas.spec_contains(
                #[trigger] moves@[k],
            ),
        ensures
            final(game).wf(),
            final(game).areas.spec_same_areas(&old(game).areas),
            final(game).areas.spec_all_cards() == old(game).areas.spec_all_cards(),
            spec_first_move(*old(game), *final(game), moves@, ids@),
            moves@.len() == 1 ==> spec_move_to(*old(game), *final(game), moves@[0], ids@),
    {
        let new_last_area = game.areas.selected().id();
        let mut i: usize = 0;
        while i < moves.len()
            invariant
                game.wf(),
                old(game).wf(),
                game.last_area == old(game).last_area,
                game.areas.spec_same_areas(&old(game).areas),
                game.areas.spec_same_cards(&old(game).areas),
                game.areas.selected == old(game).areas.selected,
                game.areas.spec_all_cards() == old(game).areas.spec_all_cards(),
                forall|k: int| 0 <= k < moves@.len() ==> old(game).areas.spec_contains(
                    #[trigger] moves@[k],
                ),
                new_last_area == old(game).spec_selected_id(),
                i <= moves@.len(),
                i == 0 ==> *game == *old(game),
                i > 0 ==> moves@[0] != new_last_area && !old(game).areas.spec_move_allowed(
                    old(game).areas.areas@[old(game).areas.spec_index_of(moves@[0])],
                ),
                moves@.len() == 1 && i == 1 ==> spec_move_to(
                    *old(game),
                    *game,
                    moves@[0],
                    Seq::empty(),
                ),
                game.areas.spec_selected_area().spec_held_from()
                    == old(game).areas.spec_selected_area().spec_held_from(),
                game.areas.spec_selected_area().spec_hand()
                    == old(game).areas.spec_selected_area().spec_hand(),
                forall|k: int|
                    0 <= k < old(game).areas.areas@.len() && k != old(game).areas.selected
                        ==> #[trigger] game.areas.areas@[k].spec_snapshot()
                        == old(game).areas.areas@[k].spec_snapshot(),
                forall|k: int| 0 <= k < i ==> !#[trigger] spec_move_stops(*old(game), moves@[k]),
            decreases moves@.len() - i,
        {
            let target = moves[i];
            proof {
                lemma_standard_areas_kept(&game.areas, &old(game).areas);
                assert(old(game).areas.spec_contains(moves@[i as int]));
                assert(game.spec_selected_id() == new_last_area);
            }
            let ghost before = *game;
            proof {
                lemma_move_allowed_kept(before.areas, old(game).areas, target);
            }
            let moved = try_move(game, target, new_last_area);
            proof {
                assert(moved is Some <==> spec_move_stops(*old(game), moves@[i as int]));
            }
            match moved {
                Some(ids) => {
                    proof {
                        let t = before.areas.spec_index_of(target);
                        if target != new_last_area {
                            assert(game.areas.areas@[t].spec_id() == before.areas.areas@[t].spec_id());
                            assert(game.spec_selected_id() == target);
                            assert(moves@[i as int] == game.spec_selected_id());
                        } else {
                            assert(game.areas.spec_same_cards(&old(game).areas));
                        }
                    }
                    return ids;
                },
                None => {
                    proof {
                        assert(game.areas.spec_same_cards(&old(game).areas));
                    }
                },
            }
            i = i + 1;
        }
        Vec::new()
    }
}

/// Moves the selection to `target`, remembering `last` (the selected area) as the last area
/// when it moves (see `spec_move_to`). Returns the ids of the areas that changed, or `None`
/// when the selected area does not allow the move.
fn try_move(game: &mut Game, target: AreaId, last: AreaId) -> (moved: Option<Vec<AreaId>>)
    requires
        old(game).wf(),
        old(game).areas.spec_contains(target),
        last == old(game).spec_selected_id(),
    ensures
        final(game).wf(),
        final(game).areas.spec_same_areas(&old(game).areas),
        final(game).areas.spec_all_cards() == old(game).areas.spec_all_cards(),
        moved is Some <==> (target == last || old(game).areas.spec_move_allowed(
            old(game).areas.areas@[old(game).areas.spec_index_of(target)],
        )),
        spec_move_to(
            *old(game),
            *final(game),
            target,
            match moved {
                Some(ids) => ids@,
                None => Seq::empty(),
            },
        ),
{
    proof {
        let k = choose|k: int|
            0 <= k < game.areas.areas@.len() && #[trigger] game.areas.areas@[k].spec_id()
                == target;
        assert(game.areas.areas@[k].spec_id() == target);
    }
    let result = game.areas.move_selection(target);
    proof {
        lemma_standard_areas_kept(&game.areas, &old(game).areas);
    }
    match result {
        Ok(ids) => {
            game.last_area = last;
            proof {
                let k = old(game).areas.selected as int;
                assert(old(game).areas.areas@[k].spec_id() == last);
                assert(game.areas.areas@[k].spec_id() == last);
            }
            Some(ids)
        },
        Err(_) => None,
    }
}

} // verus!

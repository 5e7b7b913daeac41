//! The list of all areas of the table, exactly one of which is selected.

use vstd::prelude::*;
use vstd::multiset::Multiset;

use crate::model::card::Card;
use crate::utils::spec_bounded_sub;

use super::any::{held_cards, AnyArea};
use super::talon::Talon;
use super::{move_selection, Action, AreaId, Error, ErrorKind, MoveResult};

verus! {

broadcast use vstd::seq_lib::lemma_multiset_commutative;

/// All cards in a sequence of areas, as a multiset.
pub open spec fn spec_all_cards(areas: Seq<AnyArea>) -> Multiset<Card>
    decreases areas.len(),
{
    if areas.len() == 0 {
        Multiset::empty()
    } else {
        spec_all_cards(areas.drop_last()).add(areas.last().spec_cards().to_multiset())
    }
}

/// Replacing one area changes the multiset of all cards by the difference between the old and
/// the new area's cards.
pub proof fn lemma_all_cards_update(areas: Seq<AnyArea>, i: int, area: AnyArea)
    requires
        0 <= i < areas.len(),
    ensures
        spec_all_cards(areas.update(i, area)).add(areas[i].spec_cards().to_multiset())
            == spec_all_cards(areas).add(area.spec_cards().to_multiset()),
    decreases areas.len(),
{
    broadcast use vstd::multiset::group_multiset_axioms;

    let updated = areas.update(i, area);
    let ms_i = areas[i].spec_cards().to_multiset();
    let ms_new = area.spec_cards().to_multiset();
    let ms_last = areas.last().spec_cards().to_multiset();
    let all_dl = spec_all_cards(areas.drop_last());
    assert(spec_all_cards(areas) == all_dl.add(ms_last));
    if i == areas.len() - 1 {
        assert(updated.drop_last() =~= areas.drop_last());
        assert(updated.last() == area);
        assert(spec_all_cards(updated) == all_dl.add(ms_new));
        assert(ms_last == ms_i);
        assert(all_dl.add(ms_new).add(ms_i) =~= all_dl.add(ms_i).add(ms_new));
    } else {
        lemma_all_cards_update(areas.drop_last(), i, area);
        assert(updated.drop_last() =~= areas.drop_last().update(i, area));
        assert(updated.last() == areas.last());
        assert(areas.drop_last()[i] == areas[i]);
        let all_udl = spec_all_cards(updated.drop_last());
        assert(all_udl.add(ms_i) == all_dl.add(ms_new));
        assert(spec_all_cards(updated) == all_udl.add(ms_last));
        assert(all_udl.add(ms_last).add(ms_i) =~= all_udl.add(ms_i).add(ms_last));
        assert(all_dl.add(ms_new).add(ms_last) =~= all_dl.add(ms_last).add(ms_new));
    }
}

/// Areas whose cards are the same hold the same multiset of cards.
pub proof fn lemma_all_cards_same(a: Seq<AnyArea>, b: Seq<AnyArea>)
    requires
        a.len() == b.len(),
        forall|i: int| 0 <= i < a.len() ==> #[trigger] a[i].spec_cards() == b[i].spec_cards(),
    ensures
        spec_all_cards(a) == spec_all_cards(b),
    decreases a.len(),
{
    if a.len() > 0 {
        lemma_all_cards_same(a.drop_last(), b.drop_last());
    }
}

/// Moving `hand` from the top of area `i` onto area `j` keeps the multiset of all cards.
pub proof fn lemma_move_conserves(
    areas: Seq<AnyArea>,
    i: int,
    j: int,
    ai: AnyArea,
    aj: AnyArea,
    hand: Seq<Card>,
)
    requires
        0 <= i < areas.len(),
        0 <= j < areas.len(),
        i != j,
        areas[i].spec_cards() == ai.spec_cards() + hand,
        aj.spec_cards() == areas[j].spec_cards() + hand,
    ensures
        spec_all_cards(areas.update(i, ai).update(j, aj)) == spec_all_cards(areas),
{
    broadcast use vstd::multiset::group_multiset_axioms;

    let a1 = areas.update(i, ai);
    lemma_all_cards_update(areas, i, ai);
    lemma_all_cards_update(a1, j, aj);
    assert(a1[j] == areas[j]);
    let ms_hand = hand.to_multiset();
    let ms_ai = ai.spec_cards().to_multiset();
    let ms_j = areas[j].spec_cards().to_multiset();
    assert(areas[i].spec_cards().to_multiset() == ms_ai.add(ms_hand));
    assert(aj.spec_cards().to_multiset() == ms_j.add(ms_hand));
    let all0 = spec_all_cards(areas);
    let all1 = spec_all_cards(a1);
    let all2 = spec_all_cards(a1.update(j, aj));
    assert(all1.add(ms_ai.add(ms_hand)) == all0.add(ms_ai));
    assert(all2.add(ms_j) == all1.add(ms_j.add(ms_hand)));
    assert(all2 =~= all0) by {
        assert forall|c: Card| all2.count(c) == all0.count(c) by {
            assert(all1.add(ms_ai.add(ms_hand)).count(c) == all0.add(ms_ai).count(c));
            assert(all2.add(ms_j).count(c) == all1.add(ms_j.add(ms_hand)).count(c));
        }
    }
}

/// Two areas of the same kind with the same cards and the same selection state agree on
/// everything the list looks at.
pub proof fn lemma_snapshot_determines(a: AnyArea, b: AnyArea)
    requires
        a.spec_same_kind(&b),
        a.spec_cards() == b.spec_cards(),
        a.spec_snapshot() == b.spec_snapshot(),
    ensures
        a.spec_id() == b.spec_id(),
        a.wf() == b.wf(),
        a.spec_selected() == b.spec_selected(),
        a.spec_held_from() == b.spec_held_from(),
        a.spec_hand() == b.spec_hand(),
        a.spec_can_select() == b.spec_can_select(),
        forall|source: AreaId, cards: Seq<Card>|
            #[trigger] a.spec_accepts_held(source, cards) == b.spec_accepts_held(source, cards),
{
}

/// The ids of a sequence of areas.
pub open spec fn spec_ids(areas: Seq<AnyArea>) -> Seq<AreaId> {
    areas.map_values(|a: AnyArea| a.spec_id())
}

/// A list of areas with exactly one selected, mapping area ids to areas.
#[derive(Debug)]
pub struct AreaList {
    /// The areas, in display order.
    pub areas: Vec<AnyArea>,
    /// The index of the selected area.
    pub selected: usize,
}

impl AreaList {
    /// At least one area; every area well formed; exactly the area at `selected` is selected;
    /// no two areas share an id.
    pub open spec fn wf(&self) -> bool {
        &&& self.areas@.len() > 0
        &&& self.selected < self.areas@.len()
        &&& forall|i: int| 0 <= i < self.areas@.len() ==> #[trigger] self.areas@[i].wf()
        &&& forall|i: int|
            0 <= i < self.areas@.len() ==> (#[trigger] self.areas@[i].spec_selected() <==> i
                == self.selected)
        &&& forall|i: int, j: int|
            0 <= i < self.areas@.len() && 0 <= j < self.areas@.len() && i != j
                ==> #[trigger] self.areas@[i].spec_id() != #[trigger] self.areas@[j].spec_id()
    }

    pub open spec fn spec_ids(&self) -> Seq<AreaId> {
        spec_ids(self.areas@)
    }

    pub open spec fn spec_contains(&self, id: AreaId) -> bool {
        exists|i: int| 0 <= i < self.areas@.len() && #[trigger] self.areas@[i].spec_id() == id
    }

    pub open spec fn spec_selected_area(&self) -> AnyArea {
        self.areas@[self.selected as int]
    }

    pub open spec fn spec_all_cards(&self) -> Multiset<Card> {
        spec_all_cards(self.areas@)
    }

    /// The cards of every area are as they were in `other`.
    pub open spec fn spec_same_cards(&self, other: &AreaList) -> bool {
        &&& self.areas@.len() == other.areas@.len()
        &&& forall|i: int|
            0 <= i < self.areas@.len() ==> #[trigger] self.areas@[i].spec_cards()
                == other.areas@[i].spec_cards()
    }

    /// Every area has the same id and kind as in `other`.
    pub open spec fn spec_same_areas(&self, other: &AreaList) -> bool {
        &&& self.areas@.len() == other.areas@.len()
        &&& forall|i: int|
            0 <= i < self.areas@.len() ==> #[trigger] self.areas@[i].spec_id()
                == other.areas@[i].spec_id() && self.areas@[i].spec_same_kind(&other.areas@[i])
    }

    /// Builds the list and selects its first area. The list must not be empty, no two areas
    /// may share an id, and the first area must be one that can be selected.
    pub fn new(areas: Vec<AnyArea>) -> (list: AreaList)
        requires
            areas@.len() > 0,
            spec_ids(areas@).no_duplicates(),
            areas@[0].spec_can_select(),
            forall|i: int| 0 <= i < areas@.len() ==> #[trigger] areas@[i].wf(),
            forall|i: int| 0 <= i < areas@.len() ==> !(#[trigger] areas@[i].spec_selected()),
        ensures
            list.wf(),
            list.selected == 0,
            list.spec_ids() == spec_ids(areas@),
            list.areas@.len() == areas@.len(),
            forall|i: int|
                0 <= i < areas@.len() ==> #[trigger] list.areas@[i].spec_cards()
                    == areas@[i].spec_cards() && list.areas@[i].spec_same_kind(&areas@[i]),
            list.areas@[0].spec_held_from() is None,
            forall|i: int| 1 <= i < areas@.len() ==> #[trigger] list.areas@[i] == areas@[i],
    {
        let ghost before = areas@;
        let n = areas.len();
        let mut areas = areas;
        let r = areas[0].select();
        proof {
            assert(r is Ok);
        }
        let list = AreaList { areas, selected: 0 };
        proof {
            assert forall|a: int| 0 <= a < n implies #[trigger] list.areas@[a].wf() by {
                if a != 0 {
                    assert(list.areas@[a] == before[a]);
                }
            }
            assert forall|a: int|
                0 <= a < n implies (#[trigger] list.areas@[a].spec_selected() <==> a == 0) by {
                if a != 0 {
                    assert(list.areas@[a] == before[a]);
                }
            }
            assert forall|a: int, b: int|
                0 <= a < n && 0 <= b < n && a != b implies #[trigger] list.areas@[a].spec_id()
                != #[trigger] list.areas@[b].spec_id() by {
                assert(list.areas@[a].spec_id() == before[a].spec_id());
                assert(list.areas@[b].spec_id() == before[b].spec_id());
                assert(spec_ids(before)[a] != spec_ids(before)[b]);
            }
            assert(list.spec_ids() =~= spec_ids(before));
        }
        list
    }

    /// The number of areas.
    pub fn len(&self) -> (n: usize)
        ensures
            n == self.areas@.len(),
    {
        self.areas.len()
    }

    /// The index of the area with the given id, if there is one.
    pub fn get_index(&self, area_id: AreaId) -> (index: Option<usize>)
        requires
            self.wf(),
        ensures
            match index {
                Some(i) => i < self.areas@.len() && self.areas@[i as int].spec_id() == area_id,
                None => !self.spec_contains(area_id),
            },
    {
        let mut i: usize = 0;
        while i < self.areas.len()
            invariant
                i <= self.areas@.len(),
                forall|j: int| 0 <= j < i ==> #[trigger] self.areas@[j].spec_id() != area_id,
            decreases self.areas@.len() - i,
        {
            if self.areas[i].id() == area_id {
                return Some(i);
            }
            i = i + 1;
        }
        None
    }

    /// The area at the given position.
    pub fn get_by_index(&self, index: usize) -> (area: &AnyArea)
        requires
            index < self.areas@.len(),
        ensures
            *area == self.areas@[index as int],
    {
        &self.areas[index]
    }

    /// The area at the given position, for changing it in place.
    pub fn get_by_index_mut(&mut self, index: usize) -> (area: &mut AnyArea)
        requires
            index < old(self).areas@.len(),
        ensures
            *area == old(self).areas@[index as int],
            final(self).areas@ == old(self).areas@.update(index as int, *final(area)),
            final(self).selected == old(self).selected,
    {
        &mut self.areas[index]
    }

    /// The area with the given id, which the list must have, for changing it in place.
    pub fn get_by_area_id_mut(&mut self, area_id: AreaId) -> (area: &mut AnyArea)
        requires
            old(self).wf(),
            old(self).spec_contains(area_id),
        ensures
            *area == old(self).areas@[old(self).spec_index_of(area_id)],
            final(self).areas@ == old(self).areas@.update(
                old(self).spec_index_of(area_id),
                *final(area),
            ),
            final(self).selected == old(self).selected,
    {
        let index = self.get_index(area_id).unwrap();
        &mut self.areas[index]
    }

    /// The selected area, for changing it in place.
    pub fn selected_mut(&mut self) -> (area: &mut AnyArea)
        requires
            old(self).wf(),
        ensures
            *area == old(self).spec_selected_area(),
            final(self).areas@ == old(self).areas@.update(old(self).selected as int, *final(area)),
            final(self).selected == old(self).selected,
    {
        let index = self.selected;
        &mut self.areas[index]
    }

    /// The area with the given id, which the list must have.
    pub fn get_by_area_id(&self, area_id: AreaId) -> (area: &AnyArea)
        requires
            self.wf(),
            self.spec_contains(area_id),
        ensures
            *area == self.areas@[self.spec_index_of(area_id)],
            area.spec_id() == area_id,
    {
        let index = self.get_index(area_id).unwrap();
        &self.areas[index]
    }

    /// The selected area.
    pub fn selected(&self) -> (area: &AnyArea)
        requires
            self.wf(),
        ensures
            *area == self.spec_selected_area(),
    {
        &self.areas[self.selected]
    }

    /// All areas, in display order.
    pub fn iter(&self) -> (areas: &[AnyArea])
        ensures
            areas@ == self.areas@,
    {
        self.areas.as_slice()
    }

    /// The ids of all areas, in display order.
    pub fn area_ids(&self) -> (ids: Vec<AreaId>)
        ensures
            ids@ == self.spec_ids(),
    {
        let mut ids: Vec<AreaId> = Vec::new();
        let mut i: usize = 0;
        while i < self.areas.len()
            invariant
                i <= self.areas@.len(),
                ids@ == spec_ids(self.areas@.take(i as int)),
            decreases self.areas@.len() - i,
        {
            ids.push(self.areas[i].id());
            i = i + 1;
            assert(ids@ =~= spec_ids(self.areas@.take(i as int)));
        }
        assert(self.areas@.take(i as int) =~= self.areas@);
        ids
    }

    /// The ids of the areas going left from the selection and wrapping around: the areas before
    /// the selection from nearest to farthest, then those after it from the far end back, and
    /// last the selected area itself.
    pub fn iter_left_from_selection(&self) -> (ids: Vec<AreaId>)
        requires
            self.wf(),
        ensures
            ids@.len() == self.areas@.len(),
            forall|k: int|
                0 <= k < self.areas@.len() ==> #[trigger] ids@[k] == self.spec_ids()[(
                self.selected - 1 - k) % (self.areas@.len() as int)],
    {
        let n = self.areas.len();
        let mut ids: Vec<AreaId> = Vec::new();
        let mut k: usize = 0;
        while k < n
            invariant
                n == self.areas@.len(),
                self.selected < n,
                k <= n,
                ids@.len() == k,
                forall|j: int|
                    0 <= j < k ==> #[trigger] ids@[j] == self.spec_ids()[(self.selected - 1 - j)
                        % (n as int)],
            decreases n - k,
        {
            // Position `selected - 1 - k`, taken modulo `n`.
            let index = if k < self.selected {
                self.selected - 1 - k
            } else {
                n - 1 - (k - self.selected)
            };
            proof {
                let m = self.selected - 1 - k;
                if k < self.selected {
                    assert(m % (n as int) == m) by (nonlinear_arith)
                        requires 0 <= m < n;
                } else {
                    assert(m % (n as int) == m + n) by (nonlinear_arith)
                        requires -n <= m < 0;
                }
            }
            ids.push(self.areas[index].id());
            k = k + 1;
        }
        ids
    }

    /// The ids of the areas going right from the selection and wrapping around: the areas after
    /// the selection from nearest to farthest, then those before it from the far end, and last
    /// the selected area itself.
    pub fn iter_right_from_selection(&self) -> (ids: Vec<AreaId>)
        requires
            self.wf(),
        ensures
            ids@.len() == self.areas@.len(),
            forall|k: int|
                0 <= k < self.areas@.len() ==> #[trigger] ids@[k] == self.spec_ids()[(
                self.selected + 1 + k) % (self.areas@.len() as int)],
    {
        let n = self.areas.len();
        let mut ids: Vec<AreaId> = Vec::new();
        let mut k: usize = 0;
        while k < n
            invariant
                n == self.areas@.len(),
                self.selected < n,
                k <= n,
                ids@.len() == k,
                forall|j: int|
                    0 <= j < k ==> #[trigger] ids@[j] == self.spec_ids()[(self.selected + 1 + j)
                        % (n as int)],
            decreases n - k,
        {
            // Position `selected + 1 + k`, taken modulo `n`.
            let index = if k < n - 1 - self.selected {
                self.selected + 1 + k
            } else {
                k - (n - 1 - self.selected)
            };
            proof {
                let m = self.selected + 1 + k;
                if k < n - 1 - self.selected {
                    assert(m % (n as int) == m) by (nonlinear_arith)
                        requires 0 <= m < n;
                } else {
                    assert(m % (n as int) == m - n) by (nonlinear_arith)
                        requires n <= m < 2 * n;
                }
            }
            ids.push(self.areas[index].id());
            k = k + 1;
        }
        ids
    }

    /// The index of the area with the given id (meaningful when there is one).
    pub open spec fn spec_index_of(&self, id: AreaId) -> int {
        choose|i: int| 0 <= i < self.areas@.len() && #[trigger] self.areas@[i].spec_id() == id
    }

    /// Whether the selection can move from the selected area to `target`: with cards held,
    /// the target must accept them; otherwise it must be selectable.
    pub open spec fn spec_move_allowed(&self, target: AnyArea) -> bool {
        let source = self.spec_selected_area();
        match source.spec_held_from() {
            Some(from) => target.spec_accepts_held(from, source.spec_hand()),
            None => target.spec_can_select(),
        }
    }

    /// Moves the selection, together with any held cards, to the area with the given id.
    /// Moving to the selected area changes nothing. If the target refuses, every area keeps
    /// its cards and the selection stays where it was. On success returns the ids of the two
    /// areas that changed.
    pub fn move_selection(&mut self, target: AreaId) -> (r: Result<Vec<AreaId>, Error>)
        requires
            old(self).wf(),
            old(self).spec_contains(target),
        ensures
            final(self).wf(),
            final(self).spec_same_areas(old(self)),
            final(self).spec_all_cards() == old(self).spec_all_cards(),
            target == old(self).spec_selected_area().spec_id() ==> {
                &&& r matches Ok(ids) && ids@.len() == 0
                &&& final(self).areas@ == old(self).areas@
                &&& final(self).selected == old(self).selected
            },
            target != old(self).spec_selected_area().spec_id() ==> {
                let t = old(self).spec_index_of(target);
                let source = old(self).spec_selected_area();
                &&& r is Ok <==> old(self).spec_move_allowed(old(self).areas@[t])
                &&& r matches Ok(ids) ==> {
                    &&& ids@ == seq![source.spec_id(), target]
                    &&& final(self).selected == t
                    &&& final(self).spec_selected_area().spec_held_from()
                        == source.spec_held_from()
                    &&& final(self).areas@[t].spec_cards() == old(self).areas@[t].spec_cards()
                        + source.spec_hand()
                    &&& final(self).areas@[old(self).selected as int].spec_cards()
                        + source.spec_hand() == source.spec_cards()
                    &&& forall|k: int|
                        0 <= k < old(self).areas@.len() && k != t && k != old(self).selected
                            ==> #[trigger] final(self).areas@[k] == old(self).areas@[k]
                }
                &&& r is Err ==> {
                    &&& final(self).spec_same_cards(old(self))
                    &&& final(self).selected == old(self).selected
                    &&& final(self).spec_selected_area().spec_held_from()
                        == source.spec_held_from()
                    &&& final(self).spec_selected_area().spec_hand() == source.spec_hand()
                    &&& forall|k: int|
                        0 <= k < old(self).areas@.len() && k != old(self).selected
                            ==> #[trigger] final(self).areas@[k].spec_snapshot()
                            == old(self).areas@[k].spec_snapshot()
                }
            },
    {
        let ghost old_areas = self.areas@;
        let s = self.selected;
        let source_id = self.areas[s].id();
        if source_id == target {
            return Ok(Vec::new());
        }
        let t = match self.get_index(target) {
            Some(t) => t,
            None => {
                proof {
                    assert(false);
                }
                return Ok(Vec::new());
            },
        };
        proof {
            assert(t == self.spec_index_of(target));
            assert(t != s);
        }
        let mut source = AnyArea::Talon(Talon::create(Vec::new(), 0));
        std::mem::swap(&mut source, &mut self.areas[s]);
        let mut target_area = AnyArea::Talon(Talon::create(Vec::new(), 0));
        std::mem::swap(&mut target_area, &mut self.areas[t]);
        proof {
            assert(source == old_areas[s as int]);
            assert(target_area == old_areas[t as int]);
        }
        let ghost hand = source.spec_hand();
        match move_selection(source, target_area) {
            MoveResult::Moved(m) => {
                self.areas.set(t, m.selected);
                self.areas.set(s, m.unselected);
                self.selected = t;
                let mut ids: Vec<AreaId> = Vec::new();
                ids.push(source_id);
                ids.push(target);
                proof {
                    let fin = self.areas@;
                    assert(fin =~= old_areas.update(s as int, m.unselected).update(
                        t as int,
                        m.selected,
                    ));
                    lemma_move_conserves(old_areas, s as int, t as int, m.unselected, m.selected, hand);
                    assert forall|k: int| #![trigger fin[k]] 0 <= k < fin.len() implies fin[k].wf() && (
                    fin[k].spec_selected() <==> k == t) && fin[k].spec_id()
                        == old_areas[k].spec_id() && fin[k].spec_same_kind(&old_areas[k]) by {
                        if k != s && k != t {
                            assert(fin[k] == old_areas[k]);
                        }
                    }
                    assert forall|i: int, j: int|
                        0 <= i < fin.len() && 0 <= j < fin.len() && i != j implies #[trigger] fin[i].spec_id()
                        != #[trigger] fin[j].spec_id() by {
                        assert(fin[i].spec_id() == old_areas[i].spec_id());
                        assert(fin[j].spec_id() == old_areas[j].spec_id());
                    }
                    assert forall|k: int|
                        0 <= k < old_areas.len() && k != t && k != s implies #[trigger] fin[k]
                        == old_areas[k] by {}
                    assert(ids@ =~= seq![source_id, target]);
                }
                Ok(ids)
            },
            MoveResult::Unmoved(m, error) => {
                self.areas.set(s, m.selected);
                self.areas.set(t, m.unselected);
                proof {
                    let fin = self.areas@;
                    assert(fin =~= old_areas.update(s as int, m.selected).update(
                        t as int,
                        m.unselected,
                    ));
                    assert forall|k: int| #![trigger fin[k]] 0 <= k < fin.len() implies fin[k].wf() && (
                    fin[k].spec_selected() <==> k == s) && fin[k].spec_id()
                        == old_areas[k].spec_id() && fin[k].spec_same_kind(&old_areas[k])
                        && fin[k].spec_cards() == old_areas[k].spec_cards() by {
                        if k != s && k != t {
                            assert(fin[k] == old_areas[k]);
                        }
                    }
                    assert forall|i: int, j: int|
                        0 <= i < fin.len() && 0 <= j < fin.len() && i != j implies #[trigger] fin[i].spec_id()
                        != #[trigger] fin[j].spec_id() by {
                        assert(fin[i].spec_id() == old_areas[i].spec_id());
                        assert(fin[j].spec_id() == old_areas[j].spec_id());
                    }
                    lemma_all_cards_same(fin, old_areas);
                }
                Err(error)
            },
        }
    }

    /// Whether every area other than those at `i` and `j` is unchanged from `other`.
    pub open spec fn spec_others_unchanged(&self, other: &AreaList, i: int, j: int) -> bool {
        forall|k: int|
            0 <= k < self.areas@.len() && k != i && k != j ==> #[trigger] self.areas@[k]
                == other.areas@[k]
    }

    /// Activates the selected area. The stock asks to draw: its top cards (as many as the
    /// settings say, or all that are left) move onto the talon; an empty stock asks to restock:
    /// all talon cards move back onto the stock. Other areas change only their own state.
    /// Returns the ids of the areas that changed.
    pub fn activate_selected(&mut self) -> (r: Result<Vec<AreaId>, Error>)
        requires
            old(self).wf(),
            old(self).spec_selected_area() is Stock ==> old(self).spec_contains(AreaId::Talon),
        ensures
            final(self).wf(),
            final(self).spec_same_areas(old(self)),
            final(self).spec_all_cards() == old(self).spec_all_cards(),
            final(self).selected == old(self).selected,
            match old(self).spec_selected_area() {
                AnyArea::Stock(stock) => {
                    let t = old(self).spec_index_of(AreaId::Talon);
                    let talon_cards = old(self).areas@[t].spec_cards();
                    &&& r matches Ok(ids) && ids@ == seq![AreaId::Stock, AreaId::Talon]
                    &&& final(self).spec_others_unchanged(old(self), old(self).selected as int, t)
                    &&& if stock.cards@.len() > 0 {
                        let split = spec_bounded_sub(
                            stock.cards@.len() as usize,
                            stock.draw_from_stock_len,
                        ) as int;
                        &&& final(self).spec_selected_area().spec_cards() == stock.cards@.take(
                            split,
                        )
                        &&& final(self).areas@[t].spec_cards() == talon_cards
                            + stock.cards@.skip(split)
                    } else {
                        &&& final(self).spec_selected_area().spec_cards() == talon_cards
                        &&& final(self).areas@[t].spec_cards().len() == 0
                    }
                },
                _ => {
                    &&& final(self).spec_same_cards(old(self))
                    &&& final(self).spec_others_unchanged(
                        old(self),
                        old(self).selected as int,
                        old(self).selected as int,
                    )
                    &&& old(self).spec_selected_area().spec_activates(
                        final(self).spec_selected_area(),
                    )
                    &&& r is Err <==> old(self).spec_selected_area().spec_activation_fails()
                    &&& r matches Ok(ids) ==> ids@ == seq![old(self).spec_selected_area().spec_id()]
                },
            },
    {
        let ghost old_areas = self.areas@;
        let s = self.selected;
        let selected_id = self.areas[s].id();
        let action = self.areas[s].activate();
        let ghost areas1 = self.areas@;
        proof {
            assert(areas1 == old_areas.update(s as int, areas1[s as int]));
            assert forall|k: int| #![trigger areas1[k]] 0 <= k < areas1.len() implies areas1[k].wf() && (
            areas1[k].spec_selected() <==> k == s) && areas1[k].spec_id() == old_areas[k].spec_id()
                && areas1[k].spec_same_kind(&old_areas[k]) && areas1[k].spec_cards()
                == old_areas[k].spec_cards() by {
                if k != s {
                    assert(areas1[k] == old_areas[k]);
                }
            }
            assert forall|i: int, j: int|
                0 <= i < areas1.len() && 0 <= j < areas1.len() && i != j implies #[trigger] areas1[i].spec_id()
                != #[trigger] areas1[j].spec_id() by {
                assert(areas1[i].spec_id() == old_areas[i].spec_id());
                assert(areas1[j].spec_id() == old_areas[j].spec_id());
            }
            lemma_all_cards_same(areas1, old_areas);
        }
        match action {
            Err(e) => Err(e),
            Ok(None) => {
                let mut ids: Vec<AreaId> = Vec::new();
                ids.push(selected_id);
                proof {
                    assert(ids@ =~= seq![selected_id]);
                }
                Ok(ids)
            },
            Ok(Some(action)) => {
                let t = match self.get_index(AreaId::Talon) {
                    Some(t) => t,
                    None => {
                        proof {
                            assert(old_areas[s as int] is Stock);
                            let w = choose|w: int|
                                0 <= w < old_areas.len() && #[trigger] old_areas[w].spec_id()
                                    == AreaId::Talon;
                            assert(areas1[w].spec_id() == AreaId::Talon);
                        }
                        return Err(Error::new(ErrorKind::NotSupported, "No talon"));
                    },
                };
                proof {
                    assert(t == old(self).spec_index_of(AreaId::Talon));
                    assert(t != s);
                }
                let held = match action {
                    Action::Draw(len) => match &mut self.areas[s] {
                        AnyArea::Stock(stock) => stock.take_cards(len),
                        _ => {
                            proof {
                                assert(false);
                            }
                            return Err(Error::new(ErrorKind::NotSupported, "Not the stock"));
                        },
                    },
                    Action::Restock => match &mut self.areas[t] {
                        AnyArea::Talon(talon) => talon.take_all_cards(),
                        _ => {
                            proof {
                                assert(false);
                            }
                            return Err(Error::new(ErrorKind::NotSupported, "Not the talon"));
                        },
                    },
                };
                let ghost areas2 = self.areas@;
                let destination = match action {
                    Action::Draw(_) => t,
                    Action::Restock => s,
                };
                let ghost origin: int = if destination == t { s as int } else { t as int };
                proof {
                    assert(areas2 == areas1.update(origin, areas2[origin]));
                }
                match &mut self.areas[destination] {
                    AnyArea::Stock(stock) => {
                        match stock.give_cards(held) {
                            MoveResult::Moved(()) => {},
                            MoveResult::Unmoved(..) => {
                                proof {
                                    assert(false);
                                }
                            },
                        }
                    },
                    AnyArea::Talon(talon) => {
                        match talon.give_cards(held) {
                            MoveResult::Moved(()) => {},
                            MoveResult::Unmoved(..) => {
                                proof {
                                    assert(false);
                                }
                            },
                        }
                    },
                    _ => {
                        proof {
                            assert(false);
                        }
                    },
                }
                let ghost fin = self.areas@;
                proof {
                    assert(fin == areas1.update(origin, areas2[origin]).update(
                        destination as int,
                        fin[destination as int],
                    ));
                    lemma_move_conserves(
                        areas1,
                        origin,
                        destination as int,
                        areas2[origin],
                        fin[destination as int],
                        held_cards(Some(held)),
                    );
                }
                let mut ids: Vec<AreaId> = Vec::new();
                ids.push(AreaId::Stock);
                ids.push(AreaId::Talon);
                proof {
                    assert(ids@ =~= seq![AreaId::Stock, AreaId::Talon]);
                }
                Ok(ids)
            },
        }
    }

    /// Selects one more card in the selected area, where it allows that. Returns the id of the selected area.
    pub fn select_more(&mut self) -> (r: Result<Vec<AreaId>, Error>)
        requires
            old(self).wf(),
        ensures
            final(self).wf(),
            final(self).spec_same_areas(old(self)),
            final(self).spec_same_cards(old(self)),
            final(self).spec_all_cards() == old(self).spec_all_cards(),
            final(self).selected == old(self).selected,
            final(self).spec_others_unchanged(
                old(self),
                old(self).selected as int,
                old(self).selected as int,
            ),
            final(self).spec_selected_area().spec_held_from() == old(
                self,
            ).spec_selected_area().spec_held_from(),
            r matches Ok(ids) ==> ids@ == seq![old(self).spec_selected_area().spec_id()],
            !(old(self).spec_selected_area() is Tableaux) ==> (r matches Err(e) && e.kind()
                == ErrorKind::NotSupported),
            old(self).spec_selected_area().spec_resizes(final(self).spec_selected_area(), true),
            r is Ok <==> old(self).spec_selected_area().spec_can_resize(true),
    {
        let ghost old_areas = self.areas@;
        let s = self.selected;
        let selected_id = self.areas[s].id();
        let result = self.areas[s].select_more();
        let ghost fin = self.areas@;
        proof {
            assert(fin == old_areas.update(s as int, fin[s as int]));
            assert forall|k: int| #![trigger fin[k]] 0 <= k < fin.len() implies fin[k].wf() && (
            fin[k].spec_selected() <==> k == s) && fin[k].spec_id() == old_areas[k].spec_id()
                && fin[k].spec_same_kind(&old_areas[k]) && fin[k].spec_cards()
                == old_areas[k].spec_cards() by {
                if k != s {
                    assert(fin[k] == old_areas[k]);
                }
            }
            assert forall|i: int, j: int|
                0 <= i < fin.len() && 0 <= j < fin.len() && i != j implies #[trigger] fin[i].spec_id()
                != #[trigger] fin[j].spec_id() by {
                assert(fin[i].spec_id() == old_areas[i].spec_id());
                assert(fin[j].spec_id() == old_areas[j].spec_id());
            }
            lemma_all_cards_same(fin, old_areas);
        }
        match result {
            Ok(()) => {
                let mut ids: Vec<AreaId> = Vec::new();
                ids.push(selected_id);
                proof {
                    assert(ids@ =~= seq![selected_id]);
                }
                Ok(ids)
            },
            Err(e) => Err(e),
        }
    }

    /// Selects one card fewer in the selected area, where it allows that. Returns the id of the selected area.
    pub fn select_less(&mut self) -> (r: Result<Vec<AreaId>, Error>)
        requires
            old(self).wf(),
        ensures
            final(self).wf(),
            final(self).spec_same_areas(old(self)),
            final(self).spec_same_cards(old(self)),
            final(self).spec_all_cards() == old(self).spec_all_cards(),
            final(self).selected == old(self).selected,
            final(self).spec_others_unchanged(
                old(self),
                old(self).selected as int,
                old(self).selected as int,
            ),
            final(self).spec_selected_area().spec_held_from() == old(
                self,
            ).spec_selected_area().spec_held_from(),
            r matches Ok(ids) ==> ids@ == seq![old(self).spec_selected_area().spec_id()],
            !(old(self).spec_selected_area() is Tableaux) ==> (r matches Err(e) && e.kind()
                == ErrorKind::NotSupported),
            old(self).spec_selected_area().spec_resizes(final(self).spec_selected_area(), false),
            r is Ok <==> old(self).spec_selected_area().spec_can_resize(false),
    {
        let ghost old_areas = self.areas@;
        let s = self.selected;
        let selected_id = self.areas[s].id();
        let result = self.areas[s].select_less();
        let ghost fin = self.areas@;
        proof {
            assert(fin == old_areas.update(s as int, fin[s as int]));
            assert forall|k: int| #![trigger fin[k]] 0 <= k < fin.len() implies fin[k].wf() && (
            fin[k].spec_selected() <==> k == s) && fin[k].spec_id() == old_areas[k].spec_id()
                && fin[k].spec_same_kind(&old_areas[k]) && fin[k].spec_cards()
                == old_areas[k].spec_cards() by {
                if k != s {
                    assert(fin[k] == old_areas[k]);
                }
            }
            assert forall|i: int, j: int|
                0 <= i < fin.len() && 0 <= j < fin.len() && i != j implies #[trigger] fin[i].spec_id()
                != #[trigger] fin[j].spec_id() by {
                assert(fin[i].spec_id() == old_areas[i].spec_id());
                assert(fin[j].spec_id() == old_areas[j].spec_id());
            }
            lemma_all_cards_same(fin, old_areas);
        }
        match result {
            Ok(()) => {
                let mut ids: Vec<AreaId> = Vec::new();
                ids.push(selected_id);
                proof {
                    assert(ids@ =~= seq![selected_id]);
                }
                Ok(ids)
            },
            Err(e) => Err(e),
        }
    }

    /// Returns the held cards to the area they came from: an area holding its own cards puts
    /// them down; otherwise the selection moves back to the source area with the cards. Fails
    /// when nothing is held.
    pub fn return_held(&mut self) -> (r: Result<Vec<AreaId>, Error>)
        requires
            old(self).wf(),
        ensures
            final(self).wf(),
            final(self).spec_same_areas(old(self)),
            final(self).spec_all_cards() == old(self).spec_all_cards(),
            old(self).spec_selected_area().spec_held_from() is None ==> (r matches Err(e)
                && e.kind() == ErrorKind::NothingHeld) && final(self).areas@ == old(self).areas@
                && final(self).selected == old(self).selected,
            old(self).spec_selected_area().spec_held_from() == Some(
                old(self).spec_selected_area().spec_id(),
            ) ==> (r matches Ok(ids) && ids@ == seq![old(self).spec_selected_area().spec_id()])
                && final(self).selected == old(self).selected
                && final(self).spec_selected_area().spec_held_from() is None
                && final(self).spec_same_cards(old(self)),
            old(self).spec_selected_area().spec_held_from() matches Some(source) ==> (source
                != old(self).spec_selected_area().spec_id() && old(self).spec_contains(source)
                && r is Ok ==> final(self).spec_selected_area().spec_id() == source),
            old(self).spec_selected_area().spec_held_from() matches Some(source) ==> (source
                != old(self).spec_selected_area().spec_id() && !old(self).spec_contains(source)
                ==> (r matches Err(e) && e.kind() == ErrorKind::NotSupported)
                && final(self).areas@ == old(self).areas@
                && final(self).selected == old(self).selected),
            old(self).spec_selected_area().spec_held_from() matches Some(source) ==> (source
                != old(self).spec_selected_area().spec_id() && old(self).spec_contains(source)
                && old(self).areas@[old(self).spec_index_of(source)] is Stock ==> r is Err
                && final(self).spec_same_cards(old(self))
                && final(self).selected == old(self).selected),
            old(self).spec_selected_area().spec_held_from() matches Some(source) ==> (source
                != old(self).spec_selected_area().spec_id() && old(self).spec_contains(source)
                && !(old(self).areas@[old(self).spec_index_of(source)] is Stock) ==> {
                let k = old(self).spec_index_of(source);
                let hand = old(self).spec_selected_area().spec_hand();
                &&& r matches Ok(ids) && ids@ == seq![old(self).spec_selected_area().spec_id(), source]
                &&& final(self).selected == k
                &&& final(self).areas@[k].spec_cards() == old(self).areas@[k].spec_cards() + hand
                &&& final(self).areas@[old(self).selected as int].spec_cards() + hand
                    == old(self).spec_selected_area().spec_cards()
            }),
    {
        let ghost old_areas = self.areas@;
        let s = self.selected;
        let selected_id = self.areas[s].id();
        match self.areas[s].held_from() {
            None => Err(Error::NothingHeld),
            Some(source) => {
                if source == selected_id {
                    let _ = self.areas[s].put_down();
                    let ghost fin = self.areas@;
                    proof {
                        assert(fin == old_areas.update(s as int, fin[s as int]));
                        assert forall|k: int| #![trigger fin[k]] 0 <= k < fin.len() implies fin[k].wf() && (
                        fin[k].spec_selected() <==> k == s) && fin[k].spec_id()
                            == old_areas[k].spec_id() && fin[k].spec_same_kind(&old_areas[k])
                            && fin[k].spec_cards() == old_areas[k].spec_cards() by {
                            if k != s {
                                assert(fin[k] == old_areas[k]);
                            }
                        }
                        assert forall|i: int, j: int|
                            0 <= i < fin.len() && 0 <= j < fin.len() && i != j implies #[trigger] fin[i].spec_id()
                            != #[trigger] fin[j].spec_id() by {
                            assert(fin[i].spec_id() == old_areas[i].spec_id());
                            assert(fin[j].spec_id() == old_areas[j].spec_id());
                        }
                        lemma_all_cards_same(fin, old_areas);
                    }
                    let mut ids: Vec<AreaId> = Vec::new();
                    ids.push(selected_id);
                    proof {
                        assert(ids@ =~= seq![selected_id]);
                    }
                    Ok(ids)
                } else {
                    match self.get_index(source) {
                        Some(_) => self.move_selection(source),
                        None => Err(
                            Error::new(ErrorKind::NotSupported, "Held cards from an unknown area"),
                        ),
                    }
                }
            },
        }
    }

    /// Lists with the same areas contain the same ids.
    pub proof fn lemma_same_areas_contains(&self, other: &AreaList)
        requires
            self.spec_same_areas(other),
        ensures
            forall|id: AreaId| #[trigger] other.spec_contains(id) ==> self.spec_contains(id),
            self.spec_ids() == other.spec_ids(),
    {
        assert forall|id: AreaId| #[trigger] other.spec_contains(id) implies self.spec_contains(
            id,
        ) by {
            let k = choose|k: int|
                0 <= k < other.areas@.len() && #[trigger] other.areas@[k].spec_id() == id;
            assert(self.areas@[k].spec_id() == id);
        }
        assert(self.spec_ids() =~= other.spec_ids());
    }
}

/// In a run of lists where each keeps the areas of the one before (as every operation of the
/// list ensures), the list at position `i` has the ids of the first, in the same order.
proof fn lemma_ids_kept_to(lists: Seq<AreaList>, i: int)
    requires
        0 <= i < lists.len(),
        forall|k: int| 0 < k < lists.len() ==> #[trigger] lists[k].spec_same_areas(&lists[k - 1]),
    ensures
        lists[i].spec_ids() == lists[0].spec_ids(),
        lists[i].areas@.len() == lists[0].areas@.len(),
    decreases i,
{
    if i > 0 {
        lemma_ids_kept_to(lists, i - 1);
        lists[i].lemma_same_areas_contains(&lists[i - 1]);
    }
}

/// Whether `list` has the areas `areas` it was built from: their ids in the same order, so as
/// many areas (at least one), of which exactly the one at the selected position is selected.
pub open spec fn spec_keeps_areas_of(list: AreaList, areas: Seq<AnyArea>) -> bool {
    &&& list.spec_ids() == spec_ids(areas)
    &&& list.areas@.len() == areas.len()
    &&& list.areas@.len() >= 1
    &&& list.selected < list.areas@.len()
    &&& forall|k: int|
        0 <= k < list.areas@.len() ==> (#[trigger] list.areas@[k].spec_selected() <==> k
            == list.selected)
}

/// The areas of a list never change: a list built by `new` from `areas` and then changed by
/// any run of calls of `move_selection`, `activate_selected`, `select_more`, `select_less` and
/// `return_held` (each of which keeps the list well formed and keeps its areas, as their
/// contracts say) has, after every call, the ids of `areas` in the same order, as many areas
/// as `areas` (at least one), and exactly one selected area, at the selected position. So
/// `iter` yields those areas in that order and `len` is their number.
pub proof fn lemma_areas_kept_over_calls(areas: Seq<AnyArea>, lists: Seq<AreaList>)
    requires
        lists.len() > 0,
        lists[0].spec_ids() == spec_ids(areas),
        lists[0].areas@.len() == areas.len(),
        forall|k: int| 0 <= k < lists.len() ==> #[trigger] lists[k].wf(),
        forall|k: int| 0 < k < lists.len() ==> #[trigger] lists[k].spec_same_areas(&lists[k - 1]),
    ensures
        forall|i: int| 0 <= i < lists.len() ==> spec_keeps_areas_of(#[trigger] lists[i], areas),
{
    assert forall|i: int| 0 <= i < lists.len() implies spec_keeps_areas_of(
        #[trigger] lists[i],
        areas,
    ) by {
        lemma_ids_kept_to(lists, i);
        assert(lists[i].wf());
    }
}

} // verus!

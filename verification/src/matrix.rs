//! The campaign funnel matrix edited in the browser client: a tree whose
//! nodes are the traffic source, landing pages, offers and not yet filled
//! places, with each node's children kept in numbered groups.

use vstd::prelude::*;
use vstd::string::StringExecFns;
use crate::campaign_api::{lander_url_text, lander_url_with_depth};

verus! {

/// How a funnel's steps are arranged.
#[derive(PartialEq, Eq, Structural, Clone, Copy, Debug)]
pub enum SequenceType {
    OffersOnly,
    LandingPageAndOffers,
    Matrix,
}

/// An offer placed in the matrix.
pub struct Offer {
    pub offer_id: u128,
    pub name: String,
    pub url: String,
    pub weight: u8,
}

/// A landing page placed in the matrix.
pub struct LandingPage {
    pub landing_page_id: u128,
    pub name: String,
    pub url: String,
    pub weight: u8,
    pub number_of_calls_to_action: u8,
}

/// What a matrix node holds.
pub enum MatrixData {
    Offer(Offer),
    LandingPage(LandingPage),
    Source,
    Void,
}

/// A node's own data and position: `group_idx` and `item_idx` give its
/// place among its parent's children, `depth` its distance from the source,
/// and `parent_matrix` a copy of its parent's value as it was when the node
/// was made (none for the source).
pub struct MatrixValue {
    pub id: u128,
    pub parent_matrix: Option<Box<MatrixValue>>,
    pub group_idx: usize,
    pub item_idx: usize,
    pub depth: usize,
    pub data: MatrixData,
}

impl Offer {
    /// A copy of the offer.
    pub fn copy(&self) -> (r: Offer)
        ensures
            r == *self,
    {
        Offer {
            offer_id: self.offer_id,
            name: self.name.clone(),
            url: self.url.clone(),
            weight: self.weight,
        }
    }
}

impl LandingPage {
    /// A copy of the landing page.
    pub fn copy(&self) -> (r: LandingPage)
        ensures
            r == *self,
    {
        LandingPage {
            landing_page_id: self.landing_page_id,
            name: self.name.clone(),
            url: self.url.clone(),
            weight: self.weight,
            number_of_calls_to_action: self.number_of_calls_to_action,
        }
    }
}

impl MatrixData {
    /// A copy of what a node holds.
    pub fn copy(&self) -> (r: MatrixData)
        ensures
            r == *self,
    {
        match self {
            MatrixData::Offer(o) => MatrixData::Offer(o.copy()),
            MatrixData::LandingPage(lp) => MatrixData::LandingPage(lp.copy()),
            MatrixData::Source => MatrixData::Source,
            MatrixData::Void => MatrixData::Void,
        }
    }
}

impl MatrixValue {
    /// A copy of a node's value, with the copies of its parents it holds.
    pub fn copy(&self) -> (r: MatrixValue)
        ensures
            r == *self,
        decreases self,
    {
        let parent_matrix = match &self.parent_matrix {
            Some(p) => Some(Box::new((&**p).copy())),
            None => None,
        };
        MatrixValue {
            id: self.id,
            parent_matrix,
            group_idx: self.group_idx,
            item_idx: self.item_idx,
            depth: self.depth,
            data: self.data.copy(),
        }
    }
}

/// A node with its children, in groups.
pub struct Matrix {
    pub value: MatrixValue,
    pub children_groups: Vec<Vec<Matrix>>,
}

/// Every node of group `s` carries group number `g` and its own position.
pub open spec fn group_in_place(s: Seq<Matrix>, g: int) -> bool {
    forall|i: int|
        0 <= i < s.len() ==> (#[trigger] s[i]).value.group_idx == g && s[i].value.item_idx == i
}

/// No node of `s` has `id`.
pub open spec fn group_lacks(s: Seq<Matrix>, id: u128) -> bool {
    forall|i: int| 0 <= i < s.len() ==> (#[trigger] s[i]).value.id != id
}

/// Every child of `m` carries the group and item numbers of where it sits.
pub open spec fn children_in_place(m: Matrix) -> bool {
    forall|g: int|
        0 <= g < m.children_groups@.len() ==> group_in_place(#[trigger] m.children_groups@[g]@, g)
}

/// No child of `m` has `id`.
pub open spec fn lacks_child(m: Matrix, id: u128) -> bool {
    forall|g: int|
        0 <= g < m.children_groups@.len() ==> group_lacks(#[trigger] m.children_groups@[g]@, id)
}

/// `m` placed at item `i` of group `g`.
pub open spec fn placed(m: Matrix, g: usize, i: usize) -> Matrix {
    Matrix { value: MatrixValue { group_idx: g, item_idx: i, ..m.value }, ..m }
}

/// The nodes of `s`, numbered as items `0, 1, ...` of group `g`.
pub open spec fn renumbered(s: Seq<Matrix>, g: usize) -> Seq<Matrix> {
    Seq::new(s.len(), |i: int| placed(s[i], g, i as usize))
}

/// The nodes other than the one with `id`.
pub open spec fn other_than(id: u128) -> spec_fn(Matrix) -> bool {
    |m: Matrix| m.value.id != id
}

/// `m` is a fresh, unfilled node with id `id` under the parent value
/// `parent`, at item `i` of group `g`, `depth` steps from the source,
/// without children.
pub open spec fn is_void_node(
    m: Matrix,
    parent: Option<Box<MatrixValue>>,
    id: u128,
    g: usize,
    i: usize,
    depth: usize,
) -> bool {
    &&& m.value.id == id
    &&& m.value.parent_matrix == parent
    &&& m.value.group_idx == g
    &&& m.value.item_idx == i
    &&& m.value.depth == depth
    &&& m.value.data is Void
    &&& m.children_groups@.len() == 0
}

/// A fresh, unfilled node.
pub fn void_node(
    parent: Option<Box<MatrixValue>>,
    id: u128,
    group_idx: usize,
    item_idx: usize,
    depth: usize,
) -> (m: Matrix)
    ensures
        is_void_node(m, parent, id, group_idx, item_idx, depth),
{
    Matrix {
        value: MatrixValue {
            id,
            parent_matrix: parent,
            group_idx,
            item_idx,
            depth,
            data: MatrixData::Void,
        },
        children_groups: Vec::new(),
    }
}

fn without_renumbered(group: Vec<Matrix>, id: u128, g: usize) -> (r: Vec<Matrix>)
    ensures
        r@ == renumbered(group@.filter(other_than(id)), g),
{
    let ghost all = group@;
    let n: usize = group.len();
    let mut rest = group;
    let mut out: Vec<Matrix> = Vec::new();
    let mut k: usize = 0;
    while rest.len() > 0
        invariant
            k <= all.len(),
            n == all.len(),
            rest@ == all.skip(k as int),
            out@ == renumbered(all.take(k as int).filter(other_than(id)), g),
        decreases rest.len(),
    {
        let ghost before = all.take(k as int).filter(other_than(id));
        let m = rest.remove(0);
        proof {
            assert(m == all[k as int]);
            assert(all.take(k + 1) =~= all.take(k as int).push(m));
            all.take(k as int).lemma_filter_push(m, other_than(id));
            assert(rest@ =~= all.skip(k + 1));
        }
        if m.value.id != id {
            let mut m = m;
            let pos: usize = out.len();
            m.value.group_idx = g;
            m.value.item_idx = pos;
            out.push(m);
            proof {
                assert(out@ =~= renumbered(before.push(all[k as int]), g));
            }
        }
        k += 1;
    }
    proof {
        assert(all.take(k as int) =~= all);
    }
    out
}

impl Matrix {
    /// Removes the child with `id` from every group and numbers the remaining
    /// children of each group afresh, in order; groups left empty stay.
    pub fn remove_child(&mut self, id: u128)
        ensures
            final(self).value == old(self).value,
            final(self).children_groups@.len() == old(self).children_groups@.len(),
            forall|g: int|
                0 <= g < old(self).children_groups@.len() ==> (#[trigger] final(self).children_groups@[g])@ == renumbered(
                    old(self).children_groups@[g]@.filter(other_than(id)),
                    g as usize,
                ),
            children_in_place(*final(self)),
            lacks_child(*final(self), id),
    {
        let mut groups: Vec<Vec<Matrix>> = Vec::new();
        std::mem::swap(&mut groups, &mut self.children_groups);
        let ghost all = groups@;
        let n: usize = groups.len();
        let mut out: Vec<Vec<Matrix>> = Vec::new();
        let mut g: usize = 0;
        while groups.len() > 0
            invariant
                g <= all.len(),
                n == all.len(),
                groups@ == all.skip(g as int),
                out@.len() == g,
                forall|h: int|
                    0 <= h < g ==> (#[trigger] out@[h])@ == renumbered(
                        all[h]@.filter(other_than(id)),
                        h as usize,
                    ),
                forall|h: int|
                    0 <= h < g ==> group_in_place(#[trigger] out@[h]@, h) && group_lacks(out@[h]@, id),
            decreases groups.len(),
        {
            let group = groups.remove(0);
            proof {
                assert(group == all[g as int]);
                assert(groups@ =~= all.skip(g + 1));
            }
            let kept = without_renumbered(group, id, g);
            let kept_len: usize = kept.len();
            proof {
                assert(kept_len == kept@.len());
                let f = all[g as int]@.filter(other_than(id));
                assert forall|i: int| 0 <= i < f.len() implies #[trigger] f[i].value.id != id by {
                    all[g as int]@.lemma_filter_pred(other_than(id), i);
                }
                assert forall|i: int| 0 <= i < kept@.len() implies (#[trigger] kept@[i]).value.id != id
                    && kept@[i].value.group_idx == g && kept@[i].value.item_idx == i by {
                    assert(kept@[i] == placed(f[i], g, i as usize));
                    assert(f[i].value.id != id);
                }
                assert(group_in_place(kept@, g as int));
                assert(group_lacks(kept@, id));
            }
            let ghost before = out@;
            out.push(kept);
            assert(out@ == before.push(kept));
            g += 1;
        }
        self.children_groups = out;

    }

    /// Adds an unfilled child, whose parent is this node, to group
    /// `group_idx` after its last item, or, when there is no such group, a
    /// new group holding only that child.
    pub fn add_void(&mut self, group_idx: usize, new_id: u128)
        requires
            old(self).value.depth < usize::MAX,
        ensures
            final(self).value == old(self).value,
            group_idx < old(self).children_groups@.len() ==> {
                &&& final(self).children_groups@.len() == old(self).children_groups@.len()
                &&& forall|g: int|
                    0 <= g < old(self).children_groups@.len() && g != group_idx ==> #[trigger] final(self).children_groups@[g] == old(self).children_groups@[g]
                &&& final(self).children_groups@[group_idx as int]@.drop_last() == old(self).children_groups@[group_idx as int]@
                &&& final(self).children_groups@[group_idx as int]@.len() == old(self).children_groups@[group_idx as int]@.len() + 1
                &&& is_void_node(
                    final(self).children_groups@[group_idx as int]@.last(),
                    Some(Box::new(old(self).value)),
                    new_id,
                    group_idx,
                    old(self).children_groups@[group_idx as int]@.len() as usize,
                    (old(self).value.depth + 1) as usize,
                )
            },
            group_idx >= old(self).children_groups@.len() ==> {
                &&& final(self).children_groups@.drop_last() == old(self).children_groups@
                &&& final(self).children_groups@.len() == old(self).children_groups@.len() + 1
                &&& final(self).children_groups@.last()@.len() == 1
                &&& is_void_node(
                    final(self).children_groups@.last()@[0],
                    Some(Box::new(old(self).value)),
                    new_id,
                    old(self).children_groups@.len() as usize,
                    0,
                    (old(self).value.depth + 1) as usize,
                )
            },
    {
        let depth: usize = self.value.depth;
        let parent = Some(Box::new(self.value.copy()));
        if group_idx < self.children_groups.len() {
            let item_idx: usize = self.children_groups[group_idx].len();
            let node = void_node(parent, new_id, group_idx, item_idx, depth + 1);
            self.children_groups[group_idx].push(node);
        } else {
            let new_group_idx: usize = self.children_groups.len();
            let mut group = Vec::new();
            group.push(void_node(parent, new_id, new_group_idx, 0, depth + 1));
            self.children_groups.push(group);
            assert(self.children_groups@.drop_last() =~= old(self).children_groups@);
        }
    }
}

/// `m` moved into group `g`.
pub open spec fn regrouped(m: Matrix, g: usize) -> Matrix {
    Matrix { value: MatrixValue { group_idx: g, ..m.value }, ..m }
}

/// The group `s` at index `g`, its first node told that it is in group `g`.
pub open spec fn first_regrouped(s: Seq<Matrix>, g: usize) -> Seq<Matrix> {
    if s.len() > 0 {
        s.update(0, regrouped(s[0], g))
    } else {
        s
    }
}

/// The groups of `parent` after the node `local` is removed from it in a
/// matrix funnel: under the source a whole group goes (all of them when it
/// is the only one) and the first node of each later group learns its new
/// group number; elsewhere only the node leaves its group.
pub open spec fn groups_after_matrix_removal(parent: Matrix, local: MatrixValue) -> Seq<Seq<Matrix>> {
    let groups = parent.children_groups@.map_values(|v: Vec<Matrix>| v@);
    if parent.value.data is Source {
        if groups.len() == 1 {
            Seq::empty()
        } else {
            let rest = groups.remove(local.group_idx as int);
            Seq::new(rest.len(), |h: int| first_regrouped(rest[h], h as usize))
        }
    } else if local.group_idx < groups.len() {
        groups.update(
            local.group_idx as int,
            groups[local.group_idx as int].filter(other_than(local.id)),
        )
    } else {
        groups
    }
}

/// The groups of an offers-only funnel's `parent` after the node `local`
/// leaves its group.
pub open spec fn groups_after_offer_removal(parent: Matrix, local: MatrixValue) -> Seq<Seq<Matrix>> {
    let groups = parent.children_groups@.map_values(|v: Vec<Matrix>| v@);
    groups.update(
        local.group_idx as int,
        groups[local.group_idx as int].filter(other_than(local.id)),
    )
}

/// The contents of each group.
pub open spec fn group_views(m: Matrix) -> Seq<Seq<Matrix>> {
    m.children_groups@.map_values(|v: Vec<Matrix>| v@)
}

fn without_node(group: Vec<Matrix>, id: u128) -> (r: Vec<Matrix>)
    ensures
        r@ == group@.filter(other_than(id)),
{
    let ghost all = group@;
    let n: usize = group.len();
    let mut rest = group;
    let mut out: Vec<Matrix> = Vec::new();
    let mut k: usize = 0;
    while rest.len() > 0
        invariant
            k <= all.len(),
            n == all.len(),
            rest@ == all.skip(k as int),
            out@ == all.take(k as int).filter(other_than(id)),
        decreases rest.len(),
    {
        let m = rest.remove(0);
        proof {
            assert(m == all[k as int]);
            assert(all.take(k + 1) =~= all.take(k as int).push(m));
            all.take(k as int).lemma_filter_push(m, other_than(id));
            assert(rest@ =~= all.skip(k + 1));
        }
        if m.value.id != id {
            out.push(m);
        }
        k += 1;
    }
    proof {
        assert(all.take(k as int) =~= all);
    }
    out
}

impl Matrix {
    fn drop_node_from_group(&mut self, group_idx: usize, id: u128)
        requires
            group_idx < old(self).children_groups@.len(),
        ensures
            final(self).value == old(self).value,
            group_views(*final(self)) == group_views(*old(self)).update(
                group_idx as int,
                group_views(*old(self))[group_idx as int].filter(other_than(id)),
            ),
    {
        let mut group: Vec<Matrix> = Vec::new();
        std::mem::swap(&mut group, &mut self.children_groups[group_idx]);
        let kept = without_node(group, id);
        self.children_groups.set(group_idx, kept);
        assert(group_views(*self) =~= group_views(*old(self)).update(
            group_idx as int,
            group_views(*old(self))[group_idx as int].filter(other_than(id)),
        ));
    }

    fn remove_group_and_regroup(&mut self, group_idx: usize)
        requires
            group_idx < old(self).children_groups@.len(),
        ensures
            final(self).value == old(self).value,
            group_views(*final(self)) == ({
                let rest = group_views(*old(self)).remove(group_idx as int);
                Seq::new(rest.len(), |h: int| first_regrouped(rest[h], h as usize))
            }),
    {
        let ghost rest = group_views(*self).remove(group_idx as int);
        self.children_groups.remove(group_idx);
        assert(group_views(*self) =~= rest);
        let n: usize = self.children_groups.len();
        let mut h: usize = 0;
        while h < n
            invariant
                h <= n,
                n == self.children_groups@.len(),
                n == rest.len(),
                self.value == old(self).value,
                forall|j: int|
                    0 <= j < h ==> (#[trigger] self.children_groups@[j])@ == first_regrouped(
                        rest[j],
                        j as usize,
                    ),
                forall|j: int| h <= j < n ==> (#[trigger] self.children_groups@[j])@ == rest[j],
            decreases n - h,
        {
            if self.children_groups[h].len() > 0 {
                self.children_groups[h][0].value.group_idx = h;
            }
            proof {
                assert(self.children_groups@[h as int]@ =~= first_regrouped(rest[h as int], h));
            }
            h += 1;
        }
        assert(group_views(*self) =~= Seq::new(
            rest.len(),
            |j: int| first_regrouped(rest[j], j as usize),
        ));
    }
}

/// The error text of a result.
pub open spec fn err_text(r: Result<(), String>) -> Option<Seq<char>> {
    match r {
        Ok(_) => None,
        Err(e) => Some(e@),
    }
}

/// What removing `local` from under `before` leaves (`after`) and answers
/// (`r`), by sequence type.
pub open spec fn removal_outcome(
    seq_type: SequenceType,
    local: MatrixValue,
    before: Option<Matrix>,
    after: Option<Matrix>,
    r: Result<(), String>,
) -> bool {
    match seq_type {
        SequenceType::Matrix => {
            &&& r is Ok
            &&& after is Some
            &&& after->0.value == before->0.value
            &&& group_views(after->0) == groups_after_matrix_removal(before->0, local)
        },
        SequenceType::LandingPageAndOffers => {
            &&& err_text(r) == Some("not setup"@)
            &&& after == before
        },
        SequenceType::OffersOnly => match before {
            None => {
                &&& err_text(r) == Some("No Parent"@)
                &&& after == before
            },
            Some(p) => if local.group_idx < p.children_groups@.len() {
                &&& r is Ok
                &&& after is Some
                &&& after->0.value == p.value
                &&& group_views(after->0) == groups_after_offer_removal(p, local)
            } else {
                &&& err_text(r) == Some("No Group Found"@)
                &&& after == before
            },
        },
    }
}

/// Removes the node `local` from its place under `parent`, the way the
/// matrix editor's remove button does for the funnel's sequence type.
/// The parent's node is passed in explicitly: the `parent_matrix` that
/// `local` holds is a copy of its parent's value, not the parent's node with
/// its children, which is what the removal changes.
///
/// - Matrix funnels: the node must have a parent. Under the source the
///   node's whole group goes (every group, when there is only one) and later
///   groups are renumbered through their first node; under any other node
///   only the node leaves its group.
/// - Landing pages and offers: not supported, `Err("not setup")`.
/// - Offers only: the node leaves its group; `Err("No Parent")` without a
///   parent and `Err("No Group Found")` without its group.
pub fn remove_matrix(seq_type: SequenceType, local: &MatrixValue, parent: &mut Option<Matrix>) -> (r:
    Result<(), String>)
    requires
        seq_type == SequenceType::Matrix ==> (*old(parent)) is Some,
        (seq_type == SequenceType::Matrix && (*old(parent)) is Some && (*old(parent))->0.value.data is Source) ==> ((*old(parent))->0.children_groups@.len() == 1
            || local.group_idx < (*old(parent))->0.children_groups@.len()),
    ensures
        removal_outcome(seq_type, *local, *old(parent), *final(parent), r),
{
    match seq_type {
        SequenceType::Matrix => {
            let mut p = parent.take().unwrap();
            let ghost p0 = p;
            match p.value.data {
                MatrixData::Source => {
                    if p.children_groups.len() == 1 {
                        p.children_groups.clear();
                        assert(group_views(p) =~= Seq::<Seq<Matrix>>::empty());
                    } else {
                        p.remove_group_and_regroup(local.group_idx);
                    }
                },
                _ => {
                    if local.group_idx < p.children_groups.len() {
                        p.drop_node_from_group(local.group_idx, local.id);
                    }
                },
            }
            *parent = Some(p);
            Ok(())
        },
        SequenceType::LandingPageAndOffers => Err(String::from_str("not setup")),
        SequenceType::OffersOnly => {
            if parent.is_none() {
                return Err(String::from_str("No Parent"));
            }
            let mut p = parent.take().unwrap();
            if local.group_idx < p.children_groups.len() {
                p.drop_node_from_group(local.group_idx, local.id);
                *parent = Some(p);
                Ok(())
            } else {
                *parent = Some(p);
                Err(String::from_str("No Group Found"))
            }
        },
    }
}

/// `after` is `before` with `lander` put in its place and one new group per
/// call to action appended, each holding an unfilled node (ids `new_ids`,
/// in order) one step deeper whose parent is the landing page's node.
pub open spec fn lander_attached(
    before: Matrix,
    after: Matrix,
    lander: LandingPage,
    new_ids: Seq<u128>,
) -> bool {
    &&& after.value == (MatrixValue { data: MatrixData::LandingPage(lander), ..before.value })
    &&& after.children_groups@.len() == before.children_groups@.len()
        + lander.number_of_calls_to_action
    &&& forall|g: int|
        0 <= g < before.children_groups@.len() ==> #[trigger] after.children_groups@[g]
            == before.children_groups@[g]
    &&& forall|i: int|
        0 <= i < lander.number_of_calls_to_action ==> {
            &&& (#[trigger] after.children_groups@[before.children_groups@.len() + i])@.len() == 1
            &&& is_void_node(
                after.children_groups@[before.children_groups@.len() + i]@[0],
                Some(Box::new(after.value)),
                new_ids[i],
                i as usize,
                0,
                (before.value.depth + 1) as usize,
            )
        }
}

impl Matrix {
    /// Puts `lander` in this unfilled place and gives the landing page one
    /// group per call to action below it, each holding an unfilled node one
    /// step deeper whose parent is the landing page's node; the new groups
    /// are numbered from 0 (matrix funnels).
    pub fn attach_lander(&mut self, lander: LandingPage, new_ids: &Vec<u128>)
        requires
            old(self).value.depth < usize::MAX,
            new_ids@.len() == lander.number_of_calls_to_action,
        ensures
            lander_attached(*old(self), *final(self), lander, new_ids@),
    {
        let ctas: usize = lander.number_of_calls_to_action as usize;
        self.value.data = MatrixData::LandingPage(lander);
        let depth: usize = self.value.depth + 1;
        let base: usize = self.children_groups.len();
        let mut i: usize = 0;
        while i < ctas
            invariant
                i <= ctas,
                ctas == new_ids@.len(),
                depth == old(self).value.depth + 1,
                base == old(self).children_groups@.len(),
                self.value == (MatrixValue {
                    data: MatrixData::LandingPage(lander),
                    ..old(self).value
                }),
                self.children_groups@.len() == base + i,
                forall|g: int|
                    0 <= g < base ==> #[trigger] self.children_groups@[g] == old(self).children_groups@[g],
                forall|j: int|
                    0 <= j < i ==> {
                        &&& (#[trigger] self.children_groups@[base + j])@.len() == 1
                        &&& is_void_node(
                            self.children_groups@[base + j]@[0],
                            Some(Box::new(self.value)),
                            new_ids@[j],
                            j as usize,
                            0,
                            depth,
                        )
                    },
            decreases ctas - i,
        {
            let mut group = Vec::new();
            let parent = Some(Box::new(self.value.copy()));
            group.push(void_node(parent, new_ids[i], i, 0, depth));
            self.children_groups.push(group);
            i += 1;
        }
    }

    /// Fills this unfilled place of a matrix funnel with `lander`: the page's
    /// address first gets the place's depth as its `d` parameter (see
    /// `lander_url_with_depth`), then the page is attached with its groups
    /// (see `attach_lander`). When the address is not a URL, or too long for
    /// the `url` crate, the place is left as it was and `false` comes back.
    pub fn fill_with_lander(&mut self, lander: LandingPage, new_ids: &Vec<u128>) -> (filled: bool)
        requires
            old(self).value.depth < usize::MAX,
            new_ids@.len() == lander.number_of_calls_to_action,
        ensures
            match lander_url_text(lander.url@, old(self).value.depth as nat) {
                None => !filled && *final(self) == *old(self),
                Some(u) => filled && exists|url: String|
                    #![trigger url@]
                    url@ == u && lander_attached(
                        *old(self),
                        *final(self),
                        LandingPage { url, ..lander },
                        new_ids@,
                    ),
            },
    {
        match lander_url_with_depth(lander.url.as_str(), self.value.depth) {
            None => false,
            Some(url) => {
                let ghost u = url@;
                let placed = LandingPage { url, ..lander };
                let ghost placed_copy = placed;
                self.attach_lander(placed, new_ids);
                assert(placed_copy.url@ == u);
                true
            },
        }
    }

    /// Makes sure a landing-page-and-offers funnel's source has an offer
    /// group for each of a landing page's calls to action: the first group
    /// holds the landing pages, and when there are fewer offer groups than
    /// `calls_to_action`, groups holding one unfilled node each are added,
    /// numbered after the existing ones, one step from the source, with the
    /// source as their parent.
    pub fn ensure_offer_groups(&mut self, calls_to_action: u8, new_ids: &Vec<u128>)
        requires
            old(self).children_groups@.len() >= 1,
            calls_to_action > old(self).children_groups@.len() - 1 ==> new_ids@.len()
                == calls_to_action - (old(self).children_groups@.len() - 1),
        ensures
            final(self).value == old(self).value,
            final(self).children_groups@.len() == if calls_to_action > old(self).children_groups@.len() - 1 {
                calls_to_action + 1
            } else {
                old(self).children_groups@.len() as int
            },
            forall|g: int|
                0 <= g < old(self).children_groups@.len() ==> #[trigger] final(self).children_groups@[g]
                    == old(self).children_groups@[g],
            forall|g: int|
                old(self).children_groups@.len() <= g < final(self).children_groups@.len() ==> {
                    &&& (#[trigger] final(self).children_groups@[g])@.len() == 1
                    &&& is_void_node(
                        final(self).children_groups@[g]@[0],
                        Some(Box::new(old(self).value)),
                        new_ids@[g - old(self).children_groups@.len()],
                        g as usize,
                        0,
                        1,
                    )
                },
    {
        let offer_groups: usize = self.children_groups.len() - 1;
        let ctas: usize = calls_to_action as usize;
        if ctas > offer_groups {
            let to_add: usize = ctas - offer_groups;
            let base: usize = self.children_groups.len();
            let mut i: usize = 0;
            while i < to_add
                invariant
                    i <= to_add,
                    to_add == new_ids@.len(),
                    base == old(self).children_groups@.len(),
                    base + to_add == ctas + 1,
                    ctas <= 255,
                    self.value == old(self).value,
                    self.children_groups@.len() == base + i,
                    forall|g: int|
                        0 <= g < base ==> #[trigger] self.children_groups@[g] == old(self).children_groups@[g],
                    forall|g: int|
                        base <= g < base + i ==> {
                            &&& (#[trigger] self.children_groups@[g])@.len() == 1
                            &&& is_void_node(
                                self.children_groups@[g]@[0],
                                Some(Box::new(old(self).value)),
                                new_ids@[g - base],
                                g as usize,
                                0,
                                1,
                            )
                        },
                decreases to_add - i,
            {
                let new_group_idx: usize = self.children_groups.len();
                let mut group = Vec::new();
                let parent = Some(Box::new(self.value.copy()));
                group.push(void_node(parent, new_ids[i], new_group_idx, 0, 1));
                self.children_groups.push(group);
                i += 1;
            }
        }
    }

    /// Sets the weight of the landing page or offer this node holds; other
    /// nodes are left as they are.
    pub fn apply_weight(&mut self, weight: u8)
        ensures
            final(self).children_groups == old(self).children_groups,
            final(self).value.id == old(self).value.id,
            final(self).value.group_idx == old(self).value.group_idx,
            final(self).value.item_idx == old(self).value.item_idx,
            final(self).value.depth == old(self).value.depth,
            final(self).value.parent_matrix == old(self).value.parent_matrix,
            match (old(self).value.data, final(self).value.data) {
                (MatrixData::LandingPage(a), MatrixData::LandingPage(b)) => b == LandingPage {
                    weight,
                    ..a
                },
                (MatrixData::Offer(a), MatrixData::Offer(b)) => b == Offer { weight, ..a },
                (MatrixData::Source, MatrixData::Source) => true,
                (MatrixData::Void, MatrixData::Void) => true,
                _ => false,
            },
    {
        match &mut self.value.data {
            MatrixData::LandingPage(lp) => {
                lp.weight = weight;
            },
            MatrixData::Offer(offer) => {
                offer.weight = weight;
            },
            _ => {},
        }
    }
}

/// The left margin, in pixels, that indents a matrix row at `depth`.
pub fn margin_depth_indent(depth: usize) -> (m: i32)
    ensures
        m == (if depth <= 1 {
            0
        } else if depth <= 3 {
            5 * (depth as int - 1)
        } else if depth <= 9 {
            5 * depth as int
        } else {
            50
        }),
{
    match depth {
        0 => 0,
        1 => 0,
        2 => 5,
        3 => 10,
        4 => 20,
        5 => 25,
        6 => 30,
        7 => 35,
        8 => 40,
        9 => 45,
        _ => 50,
    }
}

/// A node's children start hidden unless it is the source (depth 0).
pub fn hide_children(depth: usize) -> (hidden: bool)
    ensures
        hidden == (depth != 0),
{
    depth != 0
}

/// The CSS classes of the three sequence-type buttons (offers only, landing
/// pages and offers, matrix): the selected one is marked successful.
pub fn sequence_type_classes(seq_type: SequenceType) -> (r: (String, String, String))
    ensures
        r.0@ == "uk-button uk-button-small"@ + (if seq_type == SequenceType::OffersOnly {
            " uk-button-success"@
        } else {
            Seq::empty()
        }),
        r.1@ == "uk-button uk-button-small"@ + (if seq_type == SequenceType::LandingPageAndOffers {
            " uk-button-success"@
        } else {
            Seq::empty()
        }),
        r.2@ == "uk-button uk-button-small"@ + (if seq_type == SequenceType::Matrix {
            " uk-button-success"@
        } else {
            Seq::empty()
        }),
{
    let mut oc = String::from_str("uk-button uk-button-small");
    let mut loc = String::from_str("uk-button uk-button-small");
    let mut lc = String::from_str("uk-button uk-button-small");
    proof {
        assert(oc@ + Seq::<char>::empty() =~= oc@);
    }
    match seq_type {
        SequenceType::OffersOnly => oc.append(" uk-button-success"),
        SequenceType::LandingPageAndOffers => loc.append(" uk-button-success"),
        SequenceType::Matrix => lc.append(" uk-button-success"),
    }
    (oc, loc, lc)
}

/// The CSS classes of the campaigns tab's link and icon.
pub fn campaign_tab_classes(active: bool) -> (r: (&'static str, &'static str))
    ensures
        r.0@ == (if active {
            "active-tab uk-active uk-display-block"@
        } else {
            "uk-display-block"@
        }),
        r.1@ == (if active {
            "active-tab fa fa-rocket uk-display-block uk-text-center"@
        } else {
            "fa fa-rocket uk-display-block uk-text-center"@
        }),
{
    if active {
        ("active-tab uk-active uk-display-block", "active-tab fa fa-rocket uk-display-block uk-text-center")
    } else {
        ("uk-display-block", "fa fa-rocket uk-display-block uk-text-center")
    }
}

/// `after` is the group `before` with the nodes of id `id` taken out: no
/// node of `after` has that id, each came from `before`, and every node of
/// `before` with another id is still there.
pub open spec fn takes_out(before: Seq<Matrix>, after: Seq<Matrix>, id: u128) -> bool {
    &&& forall|i: int|
        0 <= i < after.len() ==> (#[trigger] after[i]).value.id != id && before.contains(after[i])
    &&& forall|j: int|
        0 <= j < before.len() && (#[trigger] before[j]).value.id != id ==> after.contains(before[j])
}

proof fn lemma_filter_takes_out(s: Seq<Matrix>, id: u128)
    ensures
        takes_out(s, s.filter(other_than(id)), id),
{
    broadcast use vstd::seq_lib::group_filter_ensures;

    let f = s.filter(other_than(id));
    assert forall|i: int| 0 <= i < f.len() implies (#[trigger] f[i]).value.id != id && s.contains(
        f[i],
    ) by {
        assert(other_than(id)(f[i]));
        assert(f.contains(f[i]));
        s.lemma_filter_contains_rev(other_than(id), f[i]);
    }
    assert forall|j: int| 0 <= j < s.len() && (#[trigger] s[j]).value.id != id implies f.contains(
        s[j],
    ) by {
        assert(other_than(id)(s[j]));
    }
}

/// Removing a node of a matrix funnel from under a parent that is not the
/// source takes out of the node's group exactly the nodes with its id, in
/// whatever position they stand, and leaves every other group as it was.
pub proof fn law_matrix_removal_takes_out_the_node(
    local: MatrixValue,
    before: Matrix,
    after: Option<Matrix>,
    r: Result<(), String>,
)
    requires
        removal_outcome(SequenceType::Matrix, local, Some(before), after, r),
        !(before.value.data is Source),
        local.group_idx < before.children_groups@.len(),
    ensures
        r is Ok,
        after matches Some(a) && {
            &&& a.value == before.value
            &&& a.children_groups@.len() == before.children_groups@.len()
            &&& takes_out(
                before.children_groups@[local.group_idx as int]@,
                a.children_groups@[local.group_idx as int]@,
                local.id,
            )
            &&& forall|g: int|
                0 <= g < before.children_groups@.len() && g != local.group_idx ==> (#[trigger] a.children_groups@[g])@
                    == before.children_groups@[g]@
        },
{
    let a = after->0;
    assert(group_views(a).len() == a.children_groups@.len());
    let g0 = local.group_idx as int;
    assert(group_views(a)[g0] == a.children_groups@[g0]@);
    assert(group_views(before)[g0] == before.children_groups@[g0]@);
    lemma_filter_takes_out(before.children_groups@[g0]@, local.id);
    assert forall|g: int|
        0 <= g < before.children_groups@.len() && g != local.group_idx implies (#[trigger] a.children_groups@[g])@
        == before.children_groups@[g]@ by {
        assert(group_views(a)[g] == a.children_groups@[g]@);
    }
}

/// Removing an offer of an offers-only funnel takes out of its group
/// exactly the offers with its id and leaves every other group as it was.
pub proof fn law_offer_removal_takes_out_the_offer(
    local: MatrixValue,
    before: Matrix,
    after: Option<Matrix>,
    r: Result<(), String>,
)
    requires
        removal_outcome(SequenceType::OffersOnly, local, Some(before), after, r),
        local.group_idx < before.children_groups@.len(),
    ensures
        r is Ok,
        after matches Some(a) && {
            &&& a.value == before.value
            &&& a.children_groups@.len() == before.children_groups@.len()
            &&& takes_out(
                before.children_groups@[local.group_idx as int]@,
                a.children_groups@[local.group_idx as int]@,
                local.id,
            )
            &&& forall|g: int|
                0 <= g < before.children_groups@.len() && g != local.group_idx ==> (#[trigger] a.children_groups@[g])@
                    == before.children_groups@[g]@
        },
{
    let a = after->0;
    assert(group_views(a).len() == a.children_groups@.len());
    let g0 = local.group_idx as int;
    assert(group_views(a)[g0] == a.children_groups@[g0]@);
    lemma_filter_takes_out(before.children_groups@[g0]@, local.id);
    assert forall|g: int|
        0 <= g < before.children_groups@.len() && g != local.group_idx implies (#[trigger] a.children_groups@[g])@
        == before.children_groups@[g]@ by {
        assert(group_views(a)[g] == a.children_groups@[g]@);
    }
}

/// Which offer is removed depends on its id, not on the position it claims:
/// two removals of the same id from the same group leave the same groups,
/// whatever item numbers the removed values carry.
pub proof fn law_offer_removal_ignores_position(
    local1: MatrixValue,
    local2: MatrixValue,
    before: Matrix,
    after1: Option<Matrix>,
    after2: Option<Matrix>,
    r1: Result<(), String>,
    r2: Result<(), String>,
)
    requires
        removal_outcome(SequenceType::OffersOnly, local1, Some(before), after1, r1),
        removal_outcome(SequenceType::OffersOnly, local2, Some(before), after2, r2),
        local1.id == local2.id,
        local1.group_idx == local2.group_idx,
        local1.group_idx < before.children_groups@.len(),
    ensures
        after1 matches Some(a1) && after2 matches Some(a2) && group_views(a1) == group_views(a2),
{
}

/// The same node moved to item `i` of group `g`: all but its place is kept.
pub open spec fn moved_to(old: Matrix, new: Matrix, g: int, i: int) -> bool {
    &&& new.value.id == old.value.id
    &&& new.value.parent_matrix == old.value.parent_matrix
    &&& new.value.depth == old.value.depth
    &&& new.value.data == old.value.data
    &&& new.children_groups == old.children_groups
    &&& new.value.group_idx == g as usize
    &&& new.value.item_idx == i as usize
}

/// `n`, at item `i` of group `g`, is a node of `s` with another id than
/// `id`, moved to that place and otherwise unchanged.
pub open spec fn came_from(s: Seq<Matrix>, n: Matrix, g: int, i: int, id: u128) -> bool {
    exists|j: int| 0 <= j < s.len() && s[j].value.id != id && #[trigger] moved_to(s[j], n, g, i)
}

/// The node `o` sits, moved and otherwise unchanged, somewhere in group
/// `a`, which is group `g`.
pub open spec fn kept_in(a: Seq<Matrix>, o: Matrix, g: int) -> bool {
    exists|i: int| 0 <= i < a.len() && #[trigger] moved_to(o, a[i], g, i)
}

/// After a child is removed, each remaining child is a child of the same
/// group from before, with another id, moved to its new place and otherwise
/// unchanged (its data, id, depth, parent copy and children are kept); and
/// every child with another id is still there.
pub proof fn law_remove_child_keeps_the_others(before: Matrix, after: Matrix, id: u128)
    requires
        after.value == before.value,
        after.children_groups@.len() == before.children_groups@.len(),
        forall|g: int|
            0 <= g < before.children_groups@.len() ==> (#[trigger] after.children_groups@[g])@
                == renumbered(before.children_groups@[g]@.filter(other_than(id)), g as usize),
    ensures
        forall|g: int, i: int|
            0 <= g < after.children_groups@.len() && 0 <= i < after.children_groups@[g]@.len()
                ==> came_from(
                before.children_groups@[g]@,
                #[trigger] after.children_groups@[g]@[i],
                g,
                i,
                id,
            ),
        forall|g: int, j: int|
            0 <= g < before.children_groups@.len() && 0 <= j < before.children_groups@[g]@.len()
                && (#[trigger] before.children_groups@[g]@[j]).value.id != id ==> kept_in(
                after.children_groups@[g]@,
                before.children_groups@[g]@[j],
                g,
            ),
{
    broadcast use vstd::seq_lib::group_filter_ensures;

    assert forall|g: int, i: int|
        0 <= g < after.children_groups@.len() && 0 <= i < after.children_groups@[g]@.len() implies came_from(
        before.children_groups@[g]@,
        #[trigger] after.children_groups@[g]@[i],
        g,
        i,
        id,
    ) by {
        let s = before.children_groups@[g]@;
        let a = after.children_groups@[g]@;
        let f = s.filter(other_than(id));
        assert(a == renumbered(f, g as usize));
        assert(a[i] == placed(f[i], g as usize, i as usize));
        assert(other_than(id)(f[i]));
        assert(f.contains(f[i]));
        s.lemma_filter_contains_rev(other_than(id), f[i]);
        let j = choose|j: int| 0 <= j < s.len() && s[j] == f[i];
        assert(s[j].value.id != id);
        assert(moved_to(s[j], a[i], g, i));
    }
    assert forall|g: int, j: int|
        0 <= g < before.children_groups@.len() && 0 <= j < before.children_groups@[g]@.len()
            && (#[trigger] before.children_groups@[g]@[j]).value.id != id implies kept_in(
        after.children_groups@[g]@,
        before.children_groups@[g]@[j],
        g,
    ) by {
        let s = before.children_groups@[g]@;
        let a = after.children_groups@[g]@;
        let f = s.filter(other_than(id));
        assert(a == renumbered(f, g as usize));
        assert(other_than(id)(s[j]));
        assert(f.contains(s[j]));
        let i = choose|i: int| 0 <= i < f.len() && f[i] == s[j];
        assert(a[i] == placed(f[i], g as usize, i as usize));
        assert(moved_to(s[j], a[i], g, i));
    }
}

} // verus!

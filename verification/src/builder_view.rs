//! What the matrix builder shows for one node of the funnel matrix: which
//! part of the editor it draws, which controls a place that is not yet
//! filled offers, the column titles of its tables and the captions of its
//! groups. The drawing itself belongs to the browser client; the decisions
//! are made here.

use vstd::prelude::*;
use vstd::string::StringExecFns;
use crate::decimal::{
    all_digits, decimal_text, digits_value, is_digit, lemma_digits_value_monotone, unsigned_body,
    usize_to_text,
};
use crate::matrix::{Matrix, MatrixData, SequenceType};
use crate::text::chars_of;

verus! {

/// The part of the editor drawn for a node.
#[derive(PartialEq, Eq, Structural, Clone, Copy, Debug)]
pub enum BuilderPart {
    /// A place not yet filled: pickers and, maybe, a remove button.
    FillRow,
    /// The source of an offers-only funnel: a table of its offers.
    OfferTable,
    /// An offer of an offers-only funnel: name, weight, remove.
    OfferWeightRow,
    /// The source of a landing-page funnel: one table per group.
    GroupTables,
    /// A landing page in a landing-page funnel's table.
    LanderTableRow,
    /// An offer in a landing-page funnel's table.
    OfferTableRow,
    /// The source of a matrix funnel: one entry per matrix.
    MatrixList,
    /// A landing page of a matrix funnel, with its call-to-action groups.
    MatrixLanderCard,
    /// An offer of a matrix funnel.
    MatrixOfferRow,
    /// Nothing is drawn.
    Nothing,
}

/// Which part is drawn for a node holding `data` in a funnel of `seq_type`.
pub open spec fn part_for(seq_type: SequenceType, data: MatrixData) -> BuilderPart {
    match data {
        MatrixData::Void => BuilderPart::FillRow,
        MatrixData::Source => match seq_type {
            SequenceType::OffersOnly => BuilderPart::OfferTable,
            SequenceType::LandingPageAndOffers => BuilderPart::GroupTables,
            SequenceType::Matrix => BuilderPart::MatrixList,
        },
        MatrixData::Offer(_) => match seq_type {
            SequenceType::OffersOnly => BuilderPart::OfferWeightRow,
            SequenceType::LandingPageAndOffers => BuilderPart::OfferTableRow,
            SequenceType::Matrix => BuilderPart::MatrixOfferRow,
        },
        MatrixData::LandingPage(_) => match seq_type {
            SequenceType::OffersOnly => BuilderPart::Nothing,
            SequenceType::LandingPageAndOffers => BuilderPart::LanderTableRow,
            SequenceType::Matrix => BuilderPart::MatrixLanderCard,
        },
    }
}

/// The part of the editor drawn for a node.
pub fn builder_part(seq_type: SequenceType, data: &MatrixData) -> (p: BuilderPart)
    ensures
        p == part_for(seq_type, *data),
{
    match data {
        MatrixData::Void => BuilderPart::FillRow,
        MatrixData::Source => match seq_type {
            SequenceType::OffersOnly => BuilderPart::OfferTable,
            SequenceType::LandingPageAndOffers => BuilderPart::GroupTables,
            SequenceType::Matrix => BuilderPart::MatrixList,
        },
        MatrixData::Offer(_) => match seq_type {
            SequenceType::OffersOnly => BuilderPart::OfferWeightRow,
            SequenceType::LandingPageAndOffers => BuilderPart::OfferTableRow,
            SequenceType::Matrix => BuilderPart::MatrixOfferRow,
        },
        MatrixData::LandingPage(_) => match seq_type {
            SequenceType::OffersOnly => BuilderPart::Nothing,
            SequenceType::LandingPageAndOffers => BuilderPart::LanderTableRow,
            SequenceType::Matrix => BuilderPart::MatrixLanderCard,
        },
    }
}

/// The controls of a place not yet filled.
#[derive(PartialEq, Eq, Structural, Clone, Copy, Debug)]
pub struct FillControls {
    pub offer_picker: bool,
    pub lander_picker: bool,
    pub remove_button: bool,
}

/// The deepest level at which a matrix may still take a landing page.
pub const MAX_LANDER_DEPTH: usize = 8;

/// The controls of a place not yet filled at `depth`, in group `group_idx`
/// of its parent, whose group holds `offers_in_group` nodes.
///
/// An offer can always be picked. A landing page can be picked in the
/// first group of a landing-page funnel, and in a matrix above the deepest
/// level. The place can be removed, except in a matrix where it is the only
/// node of its group.
pub fn fill_controls(
    seq_type: SequenceType,
    group_idx: usize,
    depth: usize,
    offers_in_group: usize,
) -> (c: FillControls)
    ensures
        c.offer_picker,
        c.lander_picker == match seq_type {
            SequenceType::OffersOnly => false,
            SequenceType::LandingPageAndOffers => group_idx == 0,
            SequenceType::Matrix => depth <= MAX_LANDER_DEPTH,
        },
        c.remove_button == match seq_type {
            SequenceType::Matrix => offers_in_group > 1,
            _ => true,
        },
{
    match seq_type {
        SequenceType::OffersOnly => FillControls {
            offer_picker: true,
            lander_picker: false,
            remove_button: true,
        },
        SequenceType::LandingPageAndOffers => FillControls {
            offer_picker: true,
            lander_picker: group_idx == 0,
            remove_button: true,
        },
        SequenceType::Matrix => FillControls {
            offer_picker: true,
            lander_picker: depth <= MAX_LANDER_DEPTH,
            remove_button: offers_in_group > 1,
        },
    }
}

/// The column titles of the table drawn for a source node of `seq_type`.
pub open spec fn column_titles(seq_type: SequenceType) -> Seq<Seq<char>> {
    match seq_type {
        SequenceType::OffersOnly => seq!["Name"@, "Weight"@, "Remove"@],
        SequenceType::LandingPageAndOffers => seq![
            "Name"@,
            "Type"@,
            "CTA's"@,
            "Weight"@,
            "Remove"@,
        ],
        SequenceType::Matrix => seq![
            "Depth"@,
            "Type"@,
            "Name"@,
            "Weight"@,
            "CTAs"@,
            "Remove"@,
        ],
    }
}

/// The titles of `v`, as character sequences.
pub open spec fn titles_of(v: Seq<&'static str>) -> Seq<Seq<char>> {
    v.map_values(|s: &'static str| s@)
}

fn push_title(v: &mut Vec<&'static str>, t: &'static str)
    ensures
        titles_of(final(v)@) == titles_of(old(v)@).push(t@),
{
    v.push(t);
    assert(titles_of(v@) =~= titles_of(old(v)@).push(t@));
}

/// The column titles of a table head: those of the source's table where
/// the node is the source, none otherwise.
pub fn table_columns(seq_type: SequenceType, data: &MatrixData) -> (r: Vec<&'static str>)
    ensures
        titles_of(r@) == (if data is Source {
            column_titles(seq_type)
        } else {
            Seq::empty()
        }),
{
    let mut v: Vec<&'static str> = Vec::new();
    assert(titles_of(v@) =~= Seq::<Seq<char>>::empty());
    if let MatrixData::Source = data {
        match seq_type {
            SequenceType::OffersOnly => {
                push_title(&mut v, "Name");
                push_title(&mut v, "Weight");
                push_title(&mut v, "Remove");
            },
            SequenceType::LandingPageAndOffers => {
                push_title(&mut v, "Name");
                push_title(&mut v, "Type");
                push_title(&mut v, "CTA's");
                push_title(&mut v, "Weight");
                push_title(&mut v, "Remove");
            },
            SequenceType::Matrix => {
                push_title(&mut v, "Depth");
                push_title(&mut v, "Type");
                push_title(&mut v, "Name");
                push_title(&mut v, "Weight");
                push_title(&mut v, "CTAs");
                push_title(&mut v, "Remove");
            },
        }
        assert(titles_of(v@) =~= column_titles(seq_type));
    }
    v
}

/// The heading of one group of a landing-page funnel's source.
pub struct GroupHeading {
    /// The level title shown above the group, if any.
    pub level_title: Option<String>,
    /// The group's own title, if any.
    pub group_title: Option<String>,
    /// The text of the button that adds a node to the group.
    pub add_label: String,
    /// Whether the group's table has a dashed border.
    pub dashed_border: bool,
}

/// "Offer Group " and the group's number.
pub open spec fn offer_group_text(group_idx: usize) -> Seq<char> {
    "Offer Group "@ + decimal_text(group_idx as nat)
}

fn numbered(prefix: &str, n: usize) -> (s: String)
    ensures
        s@ == prefix@ + decimal_text(n as nat),
{
    let mut s = String::from_str(prefix);
    let digits = usize_to_text(n);
    s.append(digits.as_str());
    s
}

/// The heading of group `group_idx`: the first group holds the level-one
/// elements and takes variants; each later group is an offer group, the
/// first of them under the level-two title, each with a dashed border.
pub fn offer_group_heading(group_idx: usize) -> (h: GroupHeading)
    ensures
        h.level_title matches Some(t) ==> (group_idx <= 1 && t@ == (if group_idx == 0 {
            "Level 1 Elements"@
        } else {
            "Level 2 Elements"@
        })),
        h.level_title is None ==> group_idx > 1,
        group_idx == 0 ==> h.group_title is None,
        group_idx != 0 ==> (h.group_title matches Some(t) && t@ == offer_group_text(group_idx)),
        h.add_label@ == (if group_idx == 0 {
            "Add Variant"@
        } else {
            "Add to Offer Group "@ + decimal_text(group_idx as nat)
        }),
        h.dashed_border == (group_idx != 0),
{
    if group_idx == 0 {
        GroupHeading {
            level_title: Some(String::from_str("Level 1 Elements")),
            group_title: None,
            add_label: String::from_str("Add Variant"),
            dashed_border: false,
        }
    } else {
        let level_title = if group_idx == 1 {
            Some(String::from_str("Level 2 Elements"))
        } else {
            None
        };
        GroupHeading {
            level_title,
            group_title: Some(numbered("Offer Group ", group_idx)),
            add_label: numbered("Add to Offer Group ", group_idx),
            dashed_border: true,
        }
    }
}

/// The label of call-to-action group `group_idx` out of `total_groups`,
/// counted from one: "CTA Group 2 of 3".
pub fn cta_group_label(group_idx: usize, total_groups: usize) -> (s: String)
    requires
        group_idx < usize::MAX,
    ensures
        s@ == "CTA Group "@ + decimal_text(group_idx as nat + 1) + " of "@ + decimal_text(
            total_groups as nat,
        ),
{
    let mut s = numbered("CTA Group ", group_idx + 1);
    s.append(" of ");
    let total = usize_to_text(total_groups);
    s.append(total.as_str());
    s
}

/// The label of the matrix in group `idx` of a matrix funnel's source,
/// counted from one: "Matrix #1".
pub fn matrix_label(idx: usize) -> (s: String)
    requires
        idx < usize::MAX,
    ensures
        s@ == "Matrix #"@ + decimal_text(idx as nat + 1),
{
    numbered("Matrix #", idx + 1)
}

/// The caption of a landing page in a matrix: " Lander - 3 CTAs:".
pub fn lander_caption(calls_to_action: u8) -> (s: String)
    ensures
        s@ == " Lander - "@ + decimal_text(calls_to_action as nat) + " CTAs:"@,
{
    let mut s = numbered(" Lander - ", calls_to_action as usize);
    s.append(" CTAs:");
    s
}

/// The type and call-to-action columns of a row in a landing-page funnel's
/// table: a landing page shows its number of calls to action, an offer
/// "NA"; other nodes have no such row.
pub fn row_type_columns(data: &MatrixData) -> (r: Option<(&'static str, String)>)
    ensures
        data is LandingPage ==> (r matches Some((t, n)) && t@ == "Lander"@ && n@ == decimal_text(
            data->LandingPage_0.number_of_calls_to_action as nat,
        )),
        data is Offer ==> (r matches Some((t, n)) && t@ == "Offer"@ && n@ == "NA"@),
        (data is Source || data is Void) ==> r is None,
{
    match data {
        MatrixData::LandingPage(lp) => Some(
            ("Lander", usize_to_text(lp.number_of_calls_to_action as usize)),
        ),
        MatrixData::Offer(_) => Some(("Offer", String::from_str("NA"))),
        _ => None,
    }
}

/// The entries of a matrix funnel's source: for each group that holds a
/// node, in order, the group's index and the id of its first node.
pub open spec fn matrix_entries(groups: Seq<Vec<Matrix>>) -> Seq<(usize, u128)>
    decreases groups.len(),
{
    if groups.len() == 0 {
        Seq::empty()
    } else {
        let before = matrix_entries(groups.drop_last());
        let last = groups.last();
        if last@.len() > 0 {
            before.push(((groups.len() - 1) as usize, last@[0].value.id))
        } else {
            before
        }
    }
}

/// The matrices listed under a matrix funnel's source, as `matrix_entries`
/// gives them.
pub fn source_matrices(source: &Matrix) -> (r: Vec<(usize, u128)>)
    ensures
        r@ == matrix_entries(source.children_groups@),
{
    let groups = &source.children_groups;
    let mut r: Vec<(usize, u128)> = Vec::new();
    let mut g: usize = 0;
    while g < groups.len()
        invariant
            g <= groups.len(),
            r@ == matrix_entries(groups@.take(g as int)),
        decreases groups.len() - g,
    {
        assert(groups@.take(g + 1).drop_last() =~= groups@.take(g as int));
        if groups[g].len() > 0 {
            r.push((g, groups[g][0].value.id));
        }
        g += 1;
    }
    assert(groups@.take(groups.len() as int) =~= groups@);
    r
}

/// What `u8::from_str` gives for `s`: an optional `+`, then one or more
/// ASCII digits whose value is at most 255.
pub open spec fn weight_from_text(s: Seq<char>) -> Option<u8> {
    let body = unsigned_body(s);
    if body.len() > 0 && all_digits(body) && digits_value(body) <= 255 {
        Some(digits_value(body) as u8)
    } else {
        None
    }
}

/// Reads a weight typed into the editor, as `str::parse::<u8>` does;
/// `None` is the editor's "Invalid".
pub fn parse_weight(s: &str) -> (r: Option<u8>)
    ensures
        r == weight_from_text(s@),
{
    let cs = chars_of(s);
    let mut start: usize = 0;
    if cs.len() > 0 && cs[0] == '+' {
        start = 1;
    }
    let ghost body = unsigned_body(s@);
    assert(body =~= cs@.subrange(start as int, cs@.len() as int));
    if start >= cs.len() {
        return None;
    }
    let mut value: u16 = 0;
    let mut i: usize = start;
    while i < cs.len()
        invariant
            start <= i <= cs.len(),
            cs@ == s@,
            body == cs@.subrange(start as int, cs@.len() as int),
            body == unsigned_body(s@),
            all_digits(body.take(i - start)),
            value == digits_value(body.take(i - start)),
            value <= 255,
        decreases cs.len() - i,
    {
        let c = cs[i];
        let ghost k = i - start;
        assert(body.take(k + 1).drop_last() =~= body.take(k));
        assert(body[k] == c);
        if !('0' <= c && c <= '9') {
            assert(!is_digit(body[k]));
            return None;
        }
        let d: u16 = (c as u32 - '0' as u32) as u16;
        let next: u16 = value * 10 + d;
        if next > 255 {
            proof {
                lemma_digits_value_monotone(body, k + 1);
            }
            return None;
        }
        value = next;
        i += 1;
        assert(all_digits(body.take(i - start)));
    }
    assert(body.take(cs.len() - start) =~= body);
    Some(value as u8)
}

/// The editor that owns the funnel's matrix and is told when it changes.
#[derive(PartialEq, Eq, Structural, Clone, Copy, Debug)]
pub enum MatrixOwner {
    /// The funnel's sequence builder.
    SequenceBuilder,
    /// The campaign's sequence builder.
    CampaignSequenceBuilder,
}

/// Which owner a matrix builder tells after a change: its funnel's
/// sequence builder when it has one, otherwise its campaign's sequence
/// builder when it has that, otherwise nobody.
pub fn owner_to_tell(has_sequence_builder: bool, has_campaign_sequence_builder: bool) -> (r:
    Option<MatrixOwner>)
    ensures
        r == (if has_sequence_builder {
            Some(MatrixOwner::SequenceBuilder)
        } else if has_campaign_sequence_builder {
            Some(MatrixOwner::CampaignSequenceBuilder)
        } else {
            None
        }),
{
    if has_sequence_builder {
        Some(MatrixOwner::SequenceBuilder)
    } else if has_campaign_sequence_builder {
        Some(MatrixOwner::CampaignSequenceBuilder)
    } else {
        None
    }
}

/// The matrices listed under a matrix funnel's source are exactly its
/// non-empty groups, in order, each by its index and the id of its first
/// node, whatever that node holds. (`groups` are the groups of a node, so
/// there are no more of them than a `usize` counts.)
pub proof fn law_every_matrix_is_listed(groups: Seq<Vec<Matrix>>)
    requires
        groups.len() <= usize::MAX,
    ensures
        forall|k: int|
            0 <= k < matrix_entries(groups).len() ==> {
                let e = #[trigger] matrix_entries(groups)[k];
                &&& e.0 < groups.len()
                &&& groups[e.0 as int]@.len() > 0
                &&& e.1 == groups[e.0 as int]@[0].value.id
            },
        forall|g: int|
            0 <= g < groups.len() && (#[trigger] groups[g])@.len() > 0 ==> matrix_entries(
                groups,
            ).contains((g as usize, groups[g]@[0].value.id)),
        forall|k1: int, k2: int|
            0 <= k1 < k2 < matrix_entries(groups).len() ==> #[trigger] matrix_entries(groups)[k1].0
                < #[trigger] matrix_entries(groups)[k2].0,
    decreases groups.len(),
{
    if groups.len() > 0 {
        let prev = groups.drop_last();
        law_every_matrix_is_listed(prev);
        let before = matrix_entries(prev);
        let n = groups.len() - 1;
        assert forall|g: int| 0 <= g < n implies #[trigger] prev[g] == groups[g] by {}
        let r = matrix_entries(groups);
        if groups.last()@.len() > 0 {
            let e = (n as usize, groups.last()@[0].value.id);
            assert(r == before.push(e));
            assert forall|k: int| 0 <= k < r.len() implies {
                let x = #[trigger] r[k];
                &&& x.0 < groups.len()
                &&& groups[x.0 as int]@.len() > 0
                &&& x.1 == groups[x.0 as int]@[0].value.id
            } by {
                if k < before.len() {
                    assert(r[k] == before[k]);
                    assert(before[k].0 < n);
                    assert(prev[before[k].0 as int] == groups[before[k].0 as int]);
                } else {
                    assert(r[k] == e);
                }
            }
            assert forall|k1: int, k2: int| 0 <= k1 < k2 < r.len() implies #[trigger] r[k1].0
                < #[trigger] r[k2].0 by {
                assert(r[k1] == before[k1]);
                assert(before[k1].0 < n);
                if k2 < before.len() {
                    assert(r[k2] == before[k2]);
                    assert(before[k1].0 < before[k2].0);
                } else {
                    assert(r[k2] == e);
                }
            }
            assert forall|g: int|
                0 <= g < groups.len() && (#[trigger] groups[g])@.len() > 0 implies r.contains(
                (g as usize, groups[g]@[0].value.id),
            ) by {
                if g == n {
                    assert(r[before.len() as int] == e);
                } else {
                    assert(prev[g]@.len() > 0);
                    let k = choose|k: int|
                        0 <= k < before.len() && before[k] == (g as usize, prev[g]@[0].value.id);
                    assert(r[k] == before[k]);
                }
            }
        } else {
            assert(r == before);
            assert forall|k: int| 0 <= k < r.len() implies {
                let x = #[trigger] r[k];
                &&& x.0 < groups.len()
                &&& groups[x.0 as int]@.len() > 0
                &&& x.1 == groups[x.0 as int]@[0].value.id
            } by {
                assert(before[k].0 < n);
                assert(prev[before[k].0 as int] == groups[before[k].0 as int]);
            }
            assert forall|g: int|
                0 <= g < groups.len() && (#[trigger] groups[g])@.len() > 0 implies r.contains(
                (g as usize, groups[g]@[0].value.id),
            ) by {
                assert(g != n);
                assert(prev[g]@.len() > 0);
            }
        }
    }
}

} // verus!

//! Display order and the width of the label column.

use crate::instant::ZoneMoment;
use crate::resolve::ExplicitTz;
use vstd::prelude::*;
use vstd::utf8::encode_utf8;

verus! {

/// Whether a zone that stood at place `first_origin` of the input belongs
/// before one that stood at `second_origin`: its wall clock reads earlier, or
/// the two read the same and it came first in the input.
pub open spec fn belongs_before(
    first: ZoneMoment,
    first_origin: int,
    second: ZoneMoment,
    second_origin: int,
) -> bool {
    first.civil_before(second) || (first.civil_same(second) && first_origin < second_origin)
}

/// `belongs_before` orders zones strictly and leaves no two places of an
/// input undecided: nothing belongs before itself, no two zones belong before
/// each other, the relation carries over a zone in between, and of two zones
/// from different places one belongs before the other.
pub proof fn lemma_belongs_before_is_total(
    a: ZoneMoment,
    a_origin: int,
    b: ZoneMoment,
    b_origin: int,
    c: ZoneMoment,
    c_origin: int,
)
    ensures
        !belongs_before(a, a_origin, a, a_origin),
        !(belongs_before(a, a_origin, b, b_origin) && belongs_before(b, b_origin, a, a_origin)),
        belongs_before(a, a_origin, b, b_origin) && belongs_before(b, b_origin, c, c_origin)
            ==> belongs_before(a, a_origin, c, c_origin),
        a_origin != b_origin ==> belongs_before(a, a_origin, b, b_origin) || belongs_before(
            b,
            b_origin,
            a,
            a_origin,
        ),
{
}

/// Whether `sorted` is `input` in display order, where `origin[i]` is the
/// place in `input` of the zone at place `i` of `sorted`. Every place of the
/// input occurs in `origin`, and neighbours, like any two zones, stand as
/// `belongs_before` says.
pub open spec fn is_stable_sort(
    sorted: Seq<ExplicitTz>,
    input: Seq<ExplicitTz>,
    origin: Seq<int>,
) -> bool {
    &&& sorted.len() == input.len()
    &&& origin.len() == input.len()
    &&& forall|i: int| 0 <= i < origin.len() ==> 0 <= #[trigger] origin[i] < input.len()
    &&& forall|k: int| 0 <= k < input.len() ==> #[trigger] origin.contains(k)
    &&& forall|i: int| 0 <= i < sorted.len() ==> #[trigger] sorted[i] == input[origin[i]]
    &&& forall|i: int, j: int|
        0 <= i < j < sorted.len() ==> belongs_before(
            (#[trigger] sorted[i])@.time,
            origin[i],
            (#[trigger] sorted[j])@.time,
            origin[j],
        )
}

/// Whether the wall clocks of `zones` never go back from one place to a
/// later one.
pub open spec fn is_ascending(zones: Seq<ExplicitTz>) -> bool {
    forall|i: int, j: int|
        0 <= i < j < zones.len() ==> !(#[trigger] zones[j])@.time.civil_before(
            (#[trigger] zones[i])@.time,
        )
}

/// Putting the next zone of the input at the first place where it reads
/// earlier than what stands there keeps the display order.
proof fn lemma_insert_next(
    sorted: Seq<ExplicitTz>,
    input: Seq<ExplicitTz>,
    origin: Seq<int>,
    k: int,
    at: int,
)
    requires
        0 <= k < input.len(),
        is_stable_sort(sorted, input.take(k), origin),
        0 <= at <= sorted.len(),
        forall|i: int| 0 <= i < at ==> !input[k]@.time.civil_before((#[trigger] sorted[i])@.time),
        at < sorted.len() ==> input[k]@.time.civil_before(sorted[at]@.time),
    ensures
        is_stable_sort(sorted.insert(at, input[k]), input.take(k + 1), origin.insert(at, k)),
{
    let next = input[k];
    let longer = sorted.insert(at, next);
    let origins = origin.insert(at, k);
    let before = input.take(k);
    let now = input.take(k + 1);
    sorted.insert_ensures(at, next);
    origin.insert_ensures(at, k);
    assert forall|i: int| 0 <= i < origins.len() implies 0 <= #[trigger] origins[i] < now.len() by {
        if i < at {
            assert(origins[i] == origin[i]);
        } else if i > at {
            assert(origins[i] == origin[i - 1]);
        }
    }
    assert forall|p: int| 0 <= p < now.len() implies #[trigger] origins.contains(p) by {
        if p == k {
            assert(origins[at] == k);
        } else {
            assert(origin.contains(p));
            let i = choose|i: int| 0 <= i < origin.len() && origin[i] == p;
            if i < at {
                assert(origins[i] == p);
            } else {
                assert(origins[i + 1] == p);
            }
        }
    }
    assert forall|i: int| 0 <= i < longer.len() implies #[trigger] longer[i] == now[origins[i]] by {
        if i < at {
            assert(longer[i] == sorted[i] && origins[i] == origin[i]);
            assert(sorted[i] == before[origin[i]]);
        } else if i > at {
            assert(longer[i] == sorted[i - 1] && origins[i] == origin[i - 1]);
            assert(sorted[i - 1] == before[origin[i - 1]]);
        }
    }
    assert forall|i: int, j: int| 0 <= i < j < longer.len() implies belongs_before(
        (#[trigger] longer[i])@.time,
        origins[i],
        (#[trigger] longer[j])@.time,
        origins[j],
    ) by {
        if j < at {
            assert(longer[i] == sorted[i] && longer[j] == sorted[j]);
            assert(origins[i] == origin[i] && origins[j] == origin[j]);
        } else if j == at {
            assert(longer[i] == sorted[i] && origins[i] == origin[i]);
            assert(0 <= origin[i] < k);
            assert(!next@.time.civil_before(sorted[i]@.time));
        } else if i < at {
            assert(longer[i] == sorted[i] && longer[j] == sorted[j - 1]);
            assert(origins[i] == origin[i] && origins[j] == origin[j - 1]);
        } else if i == at {
            assert(longer[j] == sorted[j - 1]);
            if j - 1 > at {
                assert(belongs_before(
                    sorted[at]@.time,
                    origin[at],
                    sorted[j - 1]@.time,
                    origin[j - 1],
                ));
            }
        } else {
            assert(longer[i] == sorted[i - 1] && longer[j] == sorted[j - 1]);
            assert(origins[i] == origin[i - 1] && origins[j] == origin[j - 1]);
        }
    }
}

/// Sorts the zones by what their wall clocks read, earliest first. Zones whose
/// clocks read the same keep the order they came in.
pub fn sort_by_civil_time(zones: &mut Vec<ExplicitTz>)
    ensures
        exists|origin: Seq<int>| is_stable_sort(final(zones)@, old(zones)@, origin),
{
    let ghost input = zones@;
    let ghost mut origin: Seq<int> = Seq::empty();
    let ghost mut k: int = 0;
    let mut sorted: Vec<ExplicitTz> = Vec::new();
    while zones.len() > 0
        invariant
            0 <= k <= input.len(),
            zones@ == input.skip(k),
            is_stable_sort(sorted@, input.take(k), origin),
        decreases zones.len(),
    {
        let next = zones.remove(0);
        assert(next == input[k]);
        let mut at: usize = 0;
        while at < sorted.len() && !next.dt().is_before(sorted[at].dt())
            invariant
                at <= sorted.len(),
                forall|i: int|
                    0 <= i < at ==> !next@.time.civil_before((#[trigger] sorted@[i])@.time),
            decreases sorted.len() - at,
        {
            at = at + 1;
        }
        proof {
            lemma_insert_next(sorted@, input, origin, k, at as int);
            assert(zones@ =~= input.skip(k + 1));
            origin = origin.insert(at as int, k);
            k = k + 1;
        }
        sorted.insert(at, next);
    }
    proof {
        assert(input.take(k) =~= input);
    }
    *zones = sorted;
}

/// In display order the wall clocks never go back, zones whose clocks read
/// the same stand as they stood in the input, and no zone of the input is
/// shown twice.
pub proof fn lemma_stable_sort_order(
    sorted: Seq<ExplicitTz>,
    input: Seq<ExplicitTz>,
    origin: Seq<int>,
)
    requires
        is_stable_sort(sorted, input, origin),
    ensures
        is_ascending(sorted),
        forall|i: int, j: int|
            0 <= i < j < sorted.len() && (#[trigger] sorted[i])@.time.civil_same(
                (#[trigger] sorted[j])@.time,
            ) ==> origin[i] < origin[j],
        forall|i: int, j: int|
            0 <= i < j < origin.len() ==> #[trigger] origin[i] != #[trigger] origin[j],
{
    assert forall|i: int, j: int| 0 <= i < j < origin.len() implies #[trigger] origin[i]
        != #[trigger] origin[j] by {
        assert(belongs_before(sorted[i]@.time, origin[i], sorted[j]@.time, origin[j]));
        assert(sorted[i] == input[origin[i]] && sorted[j] == input[origin[j]]);
    }
}

/// Two display orders of one input agree on their first `n` places.
proof fn lemma_origins_agree(
    input: Seq<ExplicitTz>,
    first: Seq<ExplicitTz>,
    first_origin: Seq<int>,
    second: Seq<ExplicitTz>,
    second_origin: Seq<int>,
    n: int,
)
    requires
        is_stable_sort(first, input, first_origin),
        is_stable_sort(second, input, second_origin),
        0 <= n <= input.len(),
    ensures
        forall|i: int| 0 <= i < n ==> first_origin[i] == second_origin[i],
    decreases n,
{
    if n > 0 {
        lemma_origins_agree(input, first, first_origin, second, second_origin, n - 1);
        lemma_stable_sort_order(first, input, first_origin);
        lemma_stable_sort_order(second, input, second_origin);
        let i = n - 1;
        let x = first_origin[i];
        let y = second_origin[i];
        assert(first[i] == input[x] && second[i] == input[y]);
        if x != y {
            if belongs_before(input[x]@.time, x, input[y]@.time, y) {
                assert(second_origin.contains(x));
                let p = choose|p: int| 0 <= p < second_origin.len() && second_origin[p] == x;
                if p < i {
                    assert(first_origin[p] == second_origin[p]);
                    assert(first_origin[p] != first_origin[i]);
                } else {
                    assert(second[p] == input[x]);
                    assert(belongs_before(second[i]@.time, y, second[p]@.time, x));
                }
            } else {
                assert(first_origin.contains(y));
                let q = choose|q: int| 0 <= q < first_origin.len() && first_origin[q] == y;
                if q < i {
                    assert(first_origin[q] == second_origin[q]);
                    assert(second_origin[q] != second_origin[i]);
                } else {
                    assert(first[q] == input[y]);
                    assert(belongs_before(first[i]@.time, x, first[q]@.time, y));
                }
            }
        }
    }
}

/// The display order of an input is determined: any two outcomes that
/// `is_stable_sort` admits are the same sequence, reached from the same
/// places.
pub proof fn lemma_stable_sort_unique(
    input: Seq<ExplicitTz>,
    first: Seq<ExplicitTz>,
    first_origin: Seq<int>,
    second: Seq<ExplicitTz>,
    second_origin: Seq<int>,
)
    requires
        is_stable_sort(first, input, first_origin),
        is_stable_sort(second, input, second_origin),
    ensures
        first == second,
        first_origin == second_origin,
{
    lemma_origins_agree(input, first, first_origin, second, second_origin, input.len() as int);
    assert(first_origin =~= second_origin);
    assert forall|i: int| 0 <= i < first.len() implies first[i] == second[i] by {
        assert(first[i] == input[first_origin[i]]);
        assert(second[i] == input[second_origin[i]]);
    }
    assert(first =~= second);
}

/// Zones that already stand in ascending order of their wall clocks are
/// shown in the order they came in.
pub proof fn lemma_sorted_input_unchanged(
    input: Seq<ExplicitTz>,
    sorted: Seq<ExplicitTz>,
    origin: Seq<int>,
)
    requires
        is_ascending(input),
        is_stable_sort(sorted, input, origin),
    ensures
        sorted == input,
{
    let places = Seq::new(input.len(), |i: int| i);
    assert forall|k: int| 0 <= k < input.len() implies #[trigger] places.contains(k) by {
        assert(places[k] == k);
    }
    assert forall|i: int, j: int| 0 <= i < j < input.len() implies belongs_before(
        (#[trigger] input[i])@.time,
        places[i],
        (#[trigger] input[j])@.time,
        places[j],
    ) by {
        assert(!input[j]@.time.civil_before(input[i]@.time));
    }
    assert(is_stable_sort(input, input, places));
    lemma_stable_sort_unique(input, sorted, origin, input, places);
}

/// The length of a label as the column width counts it: its bytes in UTF-8.
pub open spec fn label_bytes(label: Seq<char>) -> nat {
    encode_utf8(label).len()
}

/// The length of the longest label among `zones`, or zero where there are
/// none.
pub open spec fn widest_label(zones: Seq<ExplicitTz>) -> nat
    decreases zones.len(),
{
    if zones.len() == 0 {
        0
    } else {
        let before = widest_label(zones.drop_last());
        let last = label_bytes(zones.last()@.label);
        if last > before {
            last
        } else {
            before
        }
    }
}

/// The label column is as wide for the zones in display order as for the
/// zones as they came in.
pub proof fn lemma_width_of_sorted(
    sorted: Seq<ExplicitTz>,
    input: Seq<ExplicitTz>,
    origin: Seq<int>,
)
    requires
        is_stable_sort(sorted, input, origin),
    ensures
        widest_label(sorted) == widest_label(input),
{
    lemma_widest_label(sorted);
    lemma_widest_label(input);
    if input.len() > 0 {
        let i = choose|i: int|
            0 <= i < sorted.len() && label_bytes((#[trigger] sorted[i])@.label) == widest_label(
                sorted,
            );
        assert(sorted[i] == input[origin[i]]);
        let k = choose|k: int|
            0 <= k < input.len() && label_bytes((#[trigger] input[k])@.label) == widest_label(
                input,
            );
        assert(origin.contains(k));
        let j = choose|j: int| 0 <= j < origin.len() && origin[j] == k;
        assert(sorted[j] == input[origin[j]]);
    }
}

/// The width of the label column: that of the longest label, or zero where
/// alignment is switched off.
pub open spec fn column_width(zones: Seq<ExplicitTz>, no_align: bool) -> nat {
    if no_align {
        0
    } else {
        widest_label(zones)
    }
}

/// No label is longer than `widest_label`, and where there is a zone at all
/// one of the labels is exactly that long.
pub proof fn lemma_widest_label(zones: Seq<ExplicitTz>)
    ensures
        forall|i: int|
            0 <= i < zones.len() ==> label_bytes((#[trigger] zones[i])@.label) <= widest_label(
                zones,
            ),
        zones.len() > 0 ==> exists|i: int|
            0 <= i < zones.len() && label_bytes((#[trigger] zones[i])@.label) == widest_label(
                zones,
            ),
    decreases zones.len(),
{
    if zones.len() > 0 {
        let before = zones.drop_last();
        lemma_widest_label(before);
        assert forall|i: int| 0 <= i < zones.len() implies label_bytes(
            (#[trigger] zones[i])@.label,
        ) <= widest_label(zones) by {
            if i < before.len() {
                assert(zones[i] == before[i]);
            }
        }
        if label_bytes(zones.last()@.label) > widest_label(before) || before.len() == 0 {
            assert(label_bytes(zones[zones.len() - 1]@.label) == widest_label(zones));
        } else {
            let i = choose|i: int|
                0 <= i < before.len() && label_bytes((#[trigger] before[i])@.label)
                    == widest_label(before);
            assert(zones[i] == before[i]);
        }
    }
}

/// The width of the label column: the longest label's length in bytes, or
/// zero where alignment is switched off.
pub fn label_width(zones: &Vec<ExplicitTz>, no_align: bool) -> (width: usize)
    ensures
        width == column_width(zones@, no_align),
{
    if no_align {
        return 0;
    }
    let mut width: usize = 0;
    let mut i: usize = 0;
    while i < zones.len()
        invariant
            i <= zones.len(),
            width == widest_label(zones@.take(i as int)),
        decreases zones.len() - i,
    {
        let length = zones[i].name().as_bytes().len();
        proof {
            assert(zones@.take(i + 1).drop_last() =~= zones@.take(i as int));
        }
        if length > width {
            width = length;
        }
        i = i + 1;
    }
    proof {
        assert(zones@.take(i as int) =~= zones@);
    }
    width
}

} // verus!

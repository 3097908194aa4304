//! The order in which the segments of the event log are read.
use crate::protocol::EventModel;
use crate::relay_state::LogSegment;
use crate::relay_state;
use crate::store_laws;
use crate::text;
use vstd::prelude::*;

verus! {

/// The order of byte strings.
pub open spec fn bytes_less(a: Seq<u8>, b: Seq<u8>) -> bool
    decreases a.len(),
{
    if b.len() == 0 {
        false
    } else if a.len() == 0 {
        true
    } else {
        a[0] < b[0] || (a[0] == b[0] && bytes_less(a.skip(1), b.skip(1)))
    }
}

/// Whether a directory entry is a segment: its extension is `jsonl`.
pub open spec fn is_segment_file(name: Seq<u8>) -> bool {
    name.len() > 6 && name.skip(name.len() - 6) == seq![46u8, 106u8, 115u8, 111u8, 110u8, 108u8]
}

fn name_less(a: &Vec<u8>, b: &Vec<u8>) -> (r: bool)
    ensures
        r == bytes_less(a@, b@),
{
    let mut i: usize = 0;
    assert(a@.skip(0) == a@);
    assert(b@.skip(0) == b@);
    while i < a.len() && i < b.len() && a[i] == b[i]
        invariant
            i <= a@.len(),
            i <= b@.len(),
            bytes_less(a@, b@) == bytes_less(a@.skip(i as int), b@.skip(i as int)),
        decreases a@.len() - i,
    {
        assert(a@.skip(i as int).skip(1) == a@.skip(i + 1));
        assert(b@.skip(i as int).skip(1) == b@.skip(i + 1));
        i = i + 1;
    }
    if i == b.len() {
        false
    } else if i == a.len() {
        true
    } else {
        a[i] < b[i]
    }
}

fn name_is_segment(name: &Vec<u8>) -> (r: bool)
    ensures
        r == is_segment_file(name@),
{
    let n: usize = name.len();
    if n <= 6 {
        return false;
    }
    let r = name[n - 6] == 46 && name[n - 5] == 106 && name[n - 4] == 115 && name[n - 3] == 111
        && name[n - 2] == 110 && name[n - 1] == 108;
    let ghost tail = name@.skip(n - 6);
    let ghost wanted = seq![46u8, 106u8, 115u8, 111u8, 110u8, 108u8];
    proof {
        assert(tail[0] == name@[n - 6]);
        assert(tail[1] == name@[n - 5]);
        assert(tail[2] == name@[n - 4]);
        assert(tail[3] == name@[n - 3]);
        assert(tail[4] == name@[n - 2]);
        assert(tail[5] == name@[n - 1]);
        if r {
            assert(tail =~= wanted);
        }
    }
    r
}

/// Whether `order` lists the positions of the segments among the directory
/// entries `names`, each once, in the order of their names.
pub open spec fn is_load_order(names: Seq<Vec<u8>>, order: Seq<usize>) -> bool {
    &&& order.no_duplicates()
    &&& forall|k: int| 0 <= k < order.len() ==> (#[trigger] order[k]) < names.len()
    &&& forall|i: usize| i < names.len() ==> (#[trigger] order.contains(i) <==> is_segment_file(
        names[i as int]@,
    ))
    &&& forall|a: int, b: int|
        0 <= a < b < order.len() ==> !bytes_less(
            names[#[trigger] order[b] as int]@,
            names[#[trigger] order[a] as int]@,
        )
}

/// The positions of the segments among the entries of the log directory, in
/// the order in which they are read.
pub fn segment_load_order(names: &Vec<Vec<u8>>) -> (r: Vec<usize>)
    ensures
        is_load_order(names@, r@),
{
    let mut order: Vec<usize> = Vec::new();
    for i in 0..names.len()
        invariant
            order@.no_duplicates(),
            forall|k: int| 0 <= k < order@.len() ==> (#[trigger] order@[k]) < i,
            i <= names@.len(),
            forall|j: usize|
                j < i ==> (#[trigger] order@.contains(j) <==> is_segment_file(names@[j as int]@)),
            forall|a: int, b: int|
                0 <= a < b < order@.len() ==> !bytes_less(
                    names@[#[trigger] order@[b] as int]@,
                    names@[#[trigger] order@[a] as int]@,
                ),
    {
        let ghost before = order@;
        if name_is_segment(&names[i]) {
            let mut at: usize = order.len();
            while at > 0 && name_less(&names[i], &names[order[at - 1]])
                invariant
                    at <= order@.len(),
                    order@ == before,
                    i < names@.len(),
                    forall|k: int| 0 <= k < order@.len() ==> (#[trigger] order@[k]) < i,
                    forall|k: int|
                        at <= k < order@.len() ==> bytes_less(
                            names@[i as int]@,
                            names@[#[trigger] order@[k] as int]@,
                        ),
                decreases at,
            {
                at = at - 1;
            }
            order.insert(at, i);
            proof {
                assert forall|k: int| 0 <= k < order@.len() && k != at implies order@[k] == before[(
                if k < at {
                    k
                } else {
                    k - 1
                })] by {}
                assert(order@.no_duplicates()) by {
                    assert forall|a: int, b: int|
                        0 <= a < order@.len() && 0 <= b < order@.len() && a != b implies order@[a]
                        != order@[b] by {
                        let a1 = if a < at {
                            a
                        } else {
                            a - 1
                        };
                        let b1 = if b < at {
                            b
                        } else {
                            b - 1
                        };
                        if a != at && b != at {
                            assert(before[a1] != before[b1]);
                        } else if a == at {
                            assert(before[b1] < i);
                        } else {
                            assert(before[a1] < i);
                        }
                    }
                }
                assert forall|j: usize| j < i + 1 implies (#[trigger] order@.contains(j)
                    <==> is_segment_file(names@[j as int]@)) by {
                    if j == i {
                        assert(order@[at as int] == i);
                    } else {
                        if before.contains(j) {
                            let k = choose|k: int| 0 <= k < before.len() && before[k] == j;
                            if k < at {
                                assert(order@[k] == j);
                            } else {
                                assert(order@[k + 1] == j);
                            }
                        }
                        if order@.contains(j) {
                            let k = choose|k: int| 0 <= k < order@.len() && order@[k] == j;
                            assert(k != at);
                            let k1 = if k < at {
                                k
                            } else {
                                k - 1
                            };
                            assert(before[k1] == j);
                        }
                    }
                }
                assert forall|a: int, b: int| 0 <= a < b < order@.len() implies !bytes_less(
                    names@[#[trigger] order@[b] as int]@,
                    names@[#[trigger] order@[a] as int]@,
                ) by {
                    let mine = names@[i as int]@;
                    if b < at {
                        assert(order@[a] == before[a] && order@[b] == before[b]);
                    } else if b == at {
                        // What stands directly before is not greater, and what stands before
                        // that is not greater either.
                        let last = names@[before[at - 1] as int]@;
                        assert(order@[a] == before[a]);
                        if a < at - 1 {
                            assert(!bytes_less(last, names@[before[a] as int]@));
                            lemma_not_less_chain(mine, last, names@[before[a] as int]@);
                        }
                    } else if a == at {
                        assert(order@[b] == before[b - 1]);
                        lemma_less_is_asymmetric(mine, names@[before[b - 1] as int]@);
                    } else if a > at {
                        assert(order@[a] == before[a - 1] && order@[b] == before[b - 1]);
                    } else {
                        assert(order@[a] == before[a] && order@[b] == before[b - 1]);
                    }
                }
            }
        } else {
            assert forall|j: usize| j < i + 1 implies (#[trigger] order@.contains(j)
                <==> is_segment_file(names@[j as int]@)) by {
                if j == i && order@.contains(j) {
                    let k = choose|k: int| 0 <= k < order@.len() && order@[k] == j;
                    assert(order@[k] < i);
                }
            }
        }
    }
    order
}

proof fn lemma_less_is_asymmetric(a: Seq<u8>, b: Seq<u8>)
    requires
        bytes_less(a, b),
    ensures
        !bytes_less(b, a),
    decreases a.len(),
{
    if a.len() > 0 && b.len() > 0 && a[0] == b[0] {
        lemma_less_is_asymmetric(a.skip(1), b.skip(1));
    }
}

/// If `a` is not before `b` and `b` is not before `c`, then `a` is not before `c`.
proof fn lemma_not_less_chain(a: Seq<u8>, b: Seq<u8>, c: Seq<u8>)
    requires
        !bytes_less(a, b),
        !bytes_less(b, c),
    ensures
        !bytes_less(a, c),
    decreases a.len(),
{
    if a.len() > 0 && b.len() > 0 && c.len() > 0 && a[0] == b[0] && b[0] == c[0] {
        lemma_not_less_chain(a.skip(1), b.skip(1), c.skip(1));
    }
}

// ---------------------------------------------------------------------------
// Laws
// ---------------------------------------------------------------------------

/// The bytes of an ASCII text.
pub open spec fn ascii_bytes(s: Seq<char>) -> Seq<u8> {
    s.map_values(|c: char| c as u8)
}

pub open spec fn power_of_ten(exponent: nat) -> nat
    decreases exponent,
{
    if exponent == 0 {
        1
    } else {
        10 * power_of_ten((exponent - 1) as nat)
    }
}

proof fn lemma_less_push(a: Seq<u8>, b: Seq<u8>, x: u8, y: u8)
    requires
        a.len() == b.len(),
    ensures
        bytes_less(a.push(x), b.push(y)) == (bytes_less(a, b) || (a == b && x < y)),
    decreases a.len(),
{
    if a.len() == 0 {
        assert(a =~= b);
        assert(a.push(x).skip(1) =~= Seq::empty());
        assert(b.push(y).skip(1) =~= Seq::empty());
        assert(!bytes_less(b.push(y).skip(1), b.push(y).skip(1)));
        assert(!bytes_less(a, b));
    } else {
        assert(a.push(x).skip(1) =~= a.skip(1).push(x));
        assert(b.push(y).skip(1) =~= b.skip(1).push(y));
        lemma_less_push(a.skip(1), b.skip(1), x, y);
        assert(a == b <==> (a[0] == b[0] && a.skip(1) == b.skip(1))) by {
            if a[0] == b[0] && a.skip(1) == b.skip(1) {
                assert(a =~= seq![a[0]] + a.skip(1));
                assert(b =~= seq![b[0]] + b.skip(1));
            }
        }
    }
}

proof fn lemma_less_between(prefix: Seq<u8>, a: Seq<u8>, b: Seq<u8>, suffix: Seq<u8>)
    requires
        a.len() == b.len(),
        bytes_less(a, b),
    ensures
        bytes_less(prefix + a + suffix, prefix + b + suffix),
    decreases prefix.len() + suffix.len(),
{
    if suffix.len() > 0 {
        lemma_less_between(prefix, a, b, suffix.drop_last());
        let x = prefix + a + suffix.drop_last();
        let y = prefix + b + suffix.drop_last();
        assert(prefix + a + suffix =~= x.push(suffix.last()));
        assert(prefix + b + suffix =~= y.push(suffix.last()));
        lemma_less_push(x, y, suffix.last(), suffix.last());
    } else if prefix.len() > 0 {
        lemma_less_between(prefix.skip(1), a, b, suffix);
        assert((prefix + a + suffix).skip(1) =~= prefix.skip(1) + a + suffix);
        assert((prefix + b + suffix).skip(1) =~= prefix.skip(1) + b + suffix);
    } else {
        assert(prefix + a + suffix =~= a);
        assert(prefix + b + suffix =~= b);
    }
}

proof fn lemma_padded(m: nat, n: nat, width: nat)
    requires
        m <= n < power_of_ten(width),
    ensures
        text::decimal_padded(m, width).len() == width,
        text::decimal_padded(n, width).len() == width,
        m < n ==> bytes_less(
            ascii_bytes(text::decimal_padded(m, width)),
            ascii_bytes(text::decimal_padded(n, width)),
        ),
    decreases width,
{
    if width > 0 {
        let w = (width - 1) as nat;
        lemma_padded(m / 10, n / 10, w);
        let a = text::decimal_padded(m / 10, w);
        let b = text::decimal_padded(n / 10, w);
        let x = text::digit(m % 10);
        let y = text::digit(n % 10);
        assert(ascii_bytes(a.push(x)) =~= ascii_bytes(a).push(x as u8));
        assert(ascii_bytes(b.push(y)) =~= ascii_bytes(b).push(y as u8));
        lemma_less_push(ascii_bytes(a), ascii_bytes(b), x as u8, y as u8);
        if m < n && m / 10 == n / 10 {
            assert(m % 10 < n % 10);
        }
    }
}

/// The names of segments sort as the sequence numbers at which the segments start.
pub proof fn law_segment_names_sort_by_start(m: nat, n: nat)
    requires
        m < n <= u64::MAX,
    ensures
        bytes_less(
            ascii_bytes(relay_state::segment_name(m)),
            ascii_bytes(relay_state::segment_name(n)),
        ),
{
    assert(n < power_of_ten(20)) by {
        reveal_with_fuel(power_of_ten, 21);
    }
    lemma_padded(m, n, 20);
    let prefix = ascii_bytes("segment-"@);
    let suffix = ascii_bytes(".jsonl"@);
    let a = ascii_bytes(text::decimal_padded(m, 20));
    let b = ascii_bytes(text::decimal_padded(n, 20));
    lemma_less_between(prefix, a, b, suffix);
    assert(ascii_bytes(relay_state::segment_name(m)) =~= prefix + a + suffix);
    assert(ascii_bytes(relay_state::segment_name(n)) =~= prefix + b + suffix);
}

/// What is written under the name of a segment is read as a segment.
pub proof fn law_segment_names_are_read(n: nat)
    requires
        n <= u64::MAX,
    ensures
        is_segment_file(ascii_bytes(relay_state::segment_name(n))),
{
    assert(n < power_of_ten(20)) by {
        reveal_with_fuel(power_of_ten, 21);
    }
    lemma_padded(n, n, 20);
    reveal_strlit("segment-");
    reveal_strlit(".jsonl");
    let name = ascii_bytes(relay_state::segment_name(n));
    assert(name.skip(name.len() - 6) =~= ascii_bytes(".jsonl"@));
    assert(ascii_bytes(".jsonl"@) =~= seq![46u8, 106u8, 115u8, 111u8, 110u8, 108u8]);
}

/// What the files of a directory hold, read one after the other in an order.
pub open spec fn read_in_order(contents: Seq<Seq<EventModel>>, order: Seq<usize>) -> Seq<EventModel>
    decreases order.len(),
{
    if order.len() == 0 {
        Seq::empty()
    } else {
        read_in_order(contents, order.drop_last()) + contents[order.last() as int]
    }
}

/// Whether a directory holds the segments of a log, the one with number `j` at
/// `places[j]`, and beside them no file that is taken for a segment.
pub open spec fn holds_segments(
    names: Seq<Vec<u8>>,
    contents: Seq<Seq<EventModel>>,
    segments: Seq<LogSegment>,
    places: Seq<int>,
) -> bool {
    &&& places.len() == segments.len()
    &&& forall|j: int|
        0 <= j < segments.len() ==> {
            &&& 0 <= #[trigger] places[j] < names.len()
            &&& names[places[j]]@ == ascii_bytes(segments[j].file_name@)
            &&& contents[places[j]] == segments[j].events.deep_view()
        }
    &&& forall|i: int|
        0 <= i < names.len() && is_segment_file((#[trigger] names[i])@) ==> places.contains(i)
}

/// Which segment is read as the one with number `k`.
proof fn lemma_segment_at(
    names: Seq<Vec<u8>>,
    contents: Seq<Seq<EventModel>>,
    order: Seq<usize>,
    segments: Seq<LogSegment>,
    places: Seq<int>,
    k: int,
) -> (j: int)
    requires
        is_load_order(names, order),
        holds_segments(names, contents, segments, places),
        0 <= k < order.len(),
    ensures
        0 <= j < segments.len(),
        places[j] == order[k],
{
    assert(order.contains(order[k]));
    assert(is_segment_file(names[order[k] as int]@));
    choose|j: int| 0 <= j < places.len() && places[j] == order[k]
}

/// Where a segment comes in the order in which segments are read.
proof fn lemma_place_in_order(
    names: Seq<Vec<u8>>,
    contents: Seq<Seq<EventModel>>,
    order: Seq<usize>,
    segments: Seq<LogSegment>,
    places: Seq<int>,
    events: Seq<EventModel>,
    limit: nat,
    j: int,
) -> (k: int)
    requires
        is_load_order(names, order),
        holds_segments(names, contents, segments, places),
        relay_state::are_segments_of(segments, events, limit),
        names.len() <= usize::MAX,
        0 <= j < segments.len(),
    ensures
        0 <= k < order.len(),
        order[k] == places[j],
{
    let i = places[j] as usize;
    assert(segments[j].file_name@ == relay_state::segment_name(segments[j].start as nat));
    law_segment_names_are_read(segments[j].start as nat);
    assert(is_segment_file(names[i as int]@));
    assert(order.contains(i));
    choose|k: int| 0 <= k < order.len() && order[k] == i
}

/// Segments that are read later start later.
proof fn lemma_read_by_start(
    names: Seq<Vec<u8>>,
    contents: Seq<Seq<EventModel>>,
    order: Seq<usize>,
    segments: Seq<LogSegment>,
    places: Seq<int>,
    events: Seq<EventModel>,
    limit: nat,
    a: int,
    i: int,
    b: int,
    j: int,
)
    requires
        is_load_order(names, order),
        holds_segments(names, contents, segments, places),
        relay_state::are_segments_of(segments, events, limit),
        0 <= a < b < order.len(),
        0 <= i < segments.len(),
        0 <= j < segments.len(),
        places[i] == order[a],
        places[j] == order[b],
    ensures
        i < j,
{
    assert(order[a] != order[b]);
    if j < i {
        assert(segments[j].start < segments[i].start);
        law_segment_names_sort_by_start(segments[j].start as nat, segments[i].start as nat);
        assert(bytes_less(names[order[b] as int]@, names[order[a] as int]@));
    }
}

/// The segments are read in ascending order, all of them.
proof fn lemma_order_is_ascending(
    names: Seq<Vec<u8>>,
    contents: Seq<Seq<EventModel>>,
    order: Seq<usize>,
    segments: Seq<LogSegment>,
    places: Seq<int>,
    events: Seq<EventModel>,
    limit: nat,
    n: int,
)
    requires
        is_load_order(names, order),
        holds_segments(names, contents, segments, places),
        relay_state::are_segments_of(segments, events, limit),
        names.len() <= usize::MAX,
        0 <= n <= segments.len(),
    ensures
        n <= order.len(),
        forall|k: int| 0 <= k < n ==> #[trigger] order[k] == places[k],
    decreases n,
{
    if n > 0 {
        let last = n - 1;
        lemma_order_is_ascending(
            names,
            contents,
            order,
            segments,
            places,
            events,
            limit,
            last,
        );
        let at = lemma_place_in_order(
            names,
            contents,
            order,
            segments,
            places,
            events,
            limit,
            last,
        );
        if at < last {
            assert(order[at] == places[at]);
            assert(segments[at].start < segments[last].start);
            law_segment_names_sort_by_start(
                segments[at].start as nat,
                segments[last].start as nat,
            );
            assert(names[places[at]]@ == names[places[last]]@);
            lemma_less_is_asymmetric(names[places[at]]@, names[places[at]]@);
        }
        if at > last {
            let j = lemma_segment_at(names, contents, order, segments, places, last);
            lemma_read_by_start(
                names,
                contents,
                order,
                segments,
                places,
                events,
                limit,
                last,
                j,
                at,
                last,
            );
            assert(order[j] == places[j]);
            assert(order[j] != order[last]);
        }
    }
}

proof fn lemma_read_alike(
    contents: Seq<Seq<EventModel>>,
    order: Seq<usize>,
    segments: Seq<LogSegment>,
)
    requires
        order.len() == segments.len(),
        forall|k: int|
            0 <= k < order.len() ==> contents[(#[trigger] order[k]) as int]
                == segments[k].events.deep_view(),
    ensures
        read_in_order(contents, order) == store_laws::read_segments(segments),
    decreases order.len(),
{
    if order.len() > 0 {
        let rest = order.drop_last();
        assert forall|k: int| 0 <= k < rest.len() implies contents[(#[trigger] rest[k]) as int]
            == segments.drop_last()[k].events.deep_view() by {
            assert(rest[k] == order[k]);
        }
        lemma_read_alike(contents, rest, segments.drop_last());
        assert(order.last() == order[order.len() - 1]);
    }
}

/// Events in ascending order that were divided among segments are read back in
/// their order from a directory that holds the segments, in whatever order the
/// directory lists them, and whatever files it holds that are no segments.
pub proof fn law_directory_gives_back_the_log(
    names: Seq<Vec<u8>>,
    contents: Seq<Seq<EventModel>>,
    order: Seq<usize>,
    segments: Seq<LogSegment>,
    places: Seq<int>,
    events: Seq<EventModel>,
    limit: nat,
)
    requires
        limit > 0,
        names.len() <= usize::MAX,
        is_load_order(names, order),
        holds_segments(names, contents, segments, places),
        relay_state::are_segments_of(segments, events, limit),
        store_laws::ascending(events),
    ensures
        read_in_order(contents, order) == events,
{
    let n = segments.len() as int;
    lemma_order_is_ascending(names, contents, order, segments, places, events, limit, n);
    if order.len() > n {
        let j = lemma_segment_at(names, contents, order, segments, places, n);
        assert(order[j] == places[j]);
        assert(order[j] != order[n]);
    }
    assert forall|k: int| 0 <= k < order.len() implies contents[(#[trigger] order[k]) as int]
        == segments[k].events.deep_view() by {
        assert(order[k] == places[k]);
    }
    lemma_read_alike(contents, order, segments);
    store_laws::law_segments_give_back_the_log(segments, events, limit);
}

} // verus!

//! Suppression of repeated window titles.

use vstd::prelude::*;

verus! {

/// A title is delivered when none was delivered before it, or when it differs
/// from the one delivered last.
pub open spec fn should_deliver(last: Option<Seq<char>>, candidate: Seq<char>) -> bool {
    match last {
        None => true,
        Some(previous) => previous != candidate,
    }
}

/// The title that is remembered once `titles` have been offered, one after
/// another, to a deduplicator that remembered `last`.
pub open spec fn remembered(last: Option<Seq<char>>, titles: Seq<Seq<char>>) -> Option<Seq<char>> {
    if titles.len() == 0 {
        last
    } else {
        Some(titles.last())
    }
}

/// The titles that are delivered, in order, when `titles` are offered one
/// after another to a deduplicator that remembered `last`.
pub open spec fn delivered(last: Option<Seq<char>>, titles: Seq<Seq<char>>) -> Seq<Seq<char>>
    decreases titles.len(),
{
    if titles.len() == 0 {
        Seq::empty()
    } else {
        let earlier = titles.drop_last();
        if should_deliver(remembered(last, earlier), titles.last()) {
            delivered(last, earlier).push(titles.last())
        } else {
            delivered(last, earlier)
        }
    }
}

/// Position `i` opens a run of equal neighbours in `titles`.
pub open spec fn starts_run(titles: Seq<Seq<char>>, i: int) -> bool {
    0 <= i < titles.len() && (i == 0 || titles[i] != titles[i - 1])
}

/// The positions of `titles` that open a run, in increasing order.
pub open spec fn run_starts(titles: Seq<Seq<char>>) -> Seq<int> {
    Seq::new(titles.len(), |i: int| i).filter(|i: int| starts_run(titles, i))
}

/// `titles` with every run of equal neighbours reduced to its first member.
pub open spec fn collapsed(titles: Seq<Seq<char>>) -> Seq<Seq<char>> {
    run_starts(titles).map_values(|i: int| titles[i])
}

/// The views of a list of titles.
pub open spec fn titles_of(titles: Seq<String>) -> Seq<Seq<char>> {
    titles.map_values(|title: String| title@)
}

/// Remembers the title delivered last and filters out its repetitions.
pub struct TitleDeduplicator {
    last: Option<String>,
}

impl View for TitleDeduplicator {
    type V = Option<Seq<char>>;

    closed spec fn view(&self) -> Option<Seq<char>> {
        match self.last {
            None => None,
            Some(title) => Some(title@),
        }
    }
}

impl TitleDeduplicator {
    /// A deduplicator that remembers no title.
    pub fn new() -> (fresh: Self)
        ensures
            fresh@ is None,
    {
        TitleDeduplicator { last: None }
    }

    /// Offers a title. Returns it when it is to be delivered, and remembers it
    /// then; returns nothing, and changes nothing, when it repeats the last one.
    pub fn offer(&mut self, candidate: String) -> (out: Option<String>)
        ensures
            should_deliver(old(self)@, candidate@) ==> out == Some(candidate) && final(self)@
                == Some(candidate@),
            !should_deliver(old(self)@, candidate@) ==> out is None && final(self)@ == old(self)@,
    {
        let repeats = match &self.last {
            None => false,
            Some(previous) => *previous == candidate,
        };
        if repeats {
            None
        } else {
            self.last = Some(candidate.clone());
            Some(candidate)
        }
    }

    /// Offers a batch of titles in order and returns those that are delivered.
    pub fn feed(&mut self, titles: Vec<String>) -> (out: Vec<String>)
        ensures
            titles_of(out@) == delivered(old(self)@, titles_of(titles@)),
            final(self)@ == remembered(old(self)@, titles_of(titles@)),
    {
        let ghost all = titles_of(titles@);
        let mut out: Vec<String> = Vec::new();
        let mut i: usize = 0;
        assert(all.take(0) =~= Seq::<Seq<char>>::empty());
        assert(titles_of(out@) =~= Seq::<Seq<char>>::empty());
        while i < titles.len()
            invariant
                i <= titles.len(),
                all == titles_of(titles@),
                titles_of(out@) == delivered(old(self)@, all.take(i as int)),
                self@ == remembered(old(self)@, all.take(i as int)),
            decreases titles.len() - i,
        {
            let ghost before = out@;
            let candidate = titles[i].clone();
            proof {
                assert(all.take(i + 1).drop_last() =~= all.take(i as int));
                assert(all.take(i + 1).last() == candidate@);
            }
            match self.offer(candidate) {
                Some(title) => {
                    out.push(title);
                    assert(titles_of(out@) =~= titles_of(before).push(title@));
                },
                None => {},
            }
            i += 1;
        }
        assert(all.take(titles.len() as int) =~= all);
        out
    }
}

/// A fresh deduplicator delivers exactly the input with every run of equal
/// neighbours reduced to its first member; in particular the first title of
/// a non-empty input is always delivered, and no two neighbours among the
/// delivered titles are equal.
pub proof fn lemma_delivered_is_collapsed(titles: Seq<Seq<char>>)
    ensures
        delivered(None, titles) == collapsed(titles),
        titles.len() > 0 ==> delivered(None, titles).len() > 0 && delivered(None, titles)[0]
            == titles[0],
        forall|k: int|
            0 < k < delivered(None, titles).len() ==> #[trigger] delivered(None, titles)[k]
                != delivered(None, titles)[k - 1],
    decreases titles.len(),
{
    lemma_delivered_shape(None, titles);
    if titles.len() == 0 {
        reveal(Seq::filter);
        assert(Seq::new(0, |i: int| i).len() == 0);
        assert(collapsed(titles) =~= Seq::<Seq<char>>::empty());
    } else {
        let earlier = titles.drop_last();
        lemma_delivered_is_collapsed(earlier);
        assert(earlier.push(titles.last()) =~= titles);
        lemma_collapsed_push(earlier, titles.last());
    }
}

/// A deduplicator that remembers `previous` treats its input as a fresh one
/// treats the same input with `previous` put in front, but for that first
/// delivery.
pub proof fn lemma_delivered_after(previous: Seq<char>, titles: Seq<Seq<char>>)
    ensures
        delivered(Some(previous), titles) == collapsed(seq![previous] + titles).drop_first(),
    decreases titles.len(),
{
    let whole = seq![previous] + titles;
    if titles.len() == 0 {
        assert(whole =~= seq![previous]);
        lemma_delivered_is_collapsed(whole);
        assert(whole.drop_last() =~= Seq::<Seq<char>>::empty());
        assert(delivered(None, whole.drop_last()) =~= Seq::<Seq<char>>::empty());
        assert(delivered(None, whole) =~= seq![previous]);
        assert(collapsed(whole).drop_first() =~= Seq::<Seq<char>>::empty());
    } else {
        let earlier = titles.drop_last();
        lemma_delivered_after(previous, earlier);
        let front = seq![previous] + earlier;
        assert(front.push(titles.last()) =~= whole);
        lemma_collapsed_push(front, titles.last());
        lemma_delivered_is_collapsed(front);
        assert(front.len() > 0);
        assert(collapsed(front).len() > 0);
        if starts_run(whole, whole.len() - 1) {
            assert(collapsed(front).push(titles.last()).drop_first() =~= collapsed(
                front,
            ).drop_first().push(titles.last()));
        }
        assert(front.last() == if earlier.len() == 0 {
            previous
        } else {
            earlier.last()
        });
    }
}

/// What `delivered` yields begins with the first title whenever that one is
/// due, and never holds two equal neighbours; its last member is the title
/// remembered at the end.
proof fn lemma_delivered_shape(last: Option<Seq<char>>, titles: Seq<Seq<char>>)
    ensures
        titles.len() > 0 && should_deliver(last, titles[0]) ==> delivered(last, titles).len() > 0
            && delivered(last, titles)[0] == titles[0],
        delivered(last, titles).len() > 0 ==> Some(delivered(last, titles).last()) == remembered(
            last,
            titles,
        ),
        forall|k: int|
            0 < k < delivered(last, titles).len() ==> #[trigger] delivered(last, titles)[k]
                != delivered(last, titles)[k - 1],
    decreases titles.len(),
{
    if titles.len() > 0 {
        let earlier = titles.drop_last();
        lemma_delivered_shape(last, earlier);
        if earlier.len() > 0 {
            assert(earlier[0] == titles[0]);
        }
    }
}

/// Two predicates that agree on the members of a sequence filter it alike.
proof fn lemma_filter_agree(s: Seq<int>, p: spec_fn(int) -> bool, q: spec_fn(int) -> bool)
    requires
        forall|k: int| 0 <= k < s.len() ==> p(#[trigger] s[k]) == q(s[k]),
    ensures
        s.filter(p) == s.filter(q),
    decreases s.len(),
{
    reveal(Seq::filter);
    if s.len() > 0 {
        let front = s.drop_last();
        assert forall|k: int| 0 <= k < front.len() implies p(#[trigger] front[k]) == q(
            front[k],
        ) by {
            assert(front[k] == s[k]);
        }
        lemma_filter_agree(front, p, q);
        assert(p(s[s.len() - 1]) == q(s[s.len() - 1]));
    }
}

/// Every run start is a position of the sequence.
proof fn lemma_run_starts_in_range(titles: Seq<Seq<char>>)
    ensures
        forall|k: int|
            0 <= k < run_starts(titles).len() ==> 0 <= #[trigger] run_starts(titles)[k]
                < titles.len(),
{
    broadcast use vstd::seq_lib::group_filter_ensures;

    let positions = Seq::new(titles.len(), |i: int| i);
    let starts = |i: int| starts_run(titles, i);
    assert forall|k: int| 0 <= k < positions.filter(starts).len() implies starts(
        #[trigger] positions.filter(starts)[k],
    ) by {}
}

/// Appending one title appends its position to the run starts exactly when
/// it differs from the title before it.
proof fn lemma_collapsed_push(titles: Seq<Seq<char>>, next: Seq<char>)
    ensures
        starts_run(titles.push(next), titles.len() as int) ==> collapsed(titles.push(next))
            == collapsed(titles).push(next),
        !starts_run(titles.push(next), titles.len() as int) ==> collapsed(titles.push(next))
            == collapsed(titles),
{
    let longer = titles.push(next);
    let positions = Seq::new(titles.len(), |i: int| i);
    let more = Seq::new(longer.len(), |i: int| i);
    let p = |i: int| starts_run(titles, i);
    let q = |i: int| starts_run(longer, i);
    assert(more.drop_last() =~= positions);
    assert(more.last() == titles.len());
    assert forall|k: int| 0 <= k < positions.len() implies p(#[trigger] positions[k]) == q(
        positions[k],
    ) by {
        assert(longer[k] == titles[k]);
        if k > 0 {
            assert(longer[k - 1] == titles[k - 1]);
        }
    }
    lemma_filter_agree(positions, p, q);
    assert(more.filter(q) == if q(more.last()) {
        more.drop_last().filter(q).push(more.last())
    } else {
        more.drop_last().filter(q)
    }) by {
        reveal(Seq::filter);
    }
    lemma_run_starts_in_range(titles);
    let starts = run_starts(titles);
    assert forall|k: int| 0 <= k < starts.len() implies longer[#[trigger] starts[k]]
        == titles[starts[k]] by {}
    if starts_run(longer, titles.len() as int) {
        assert(run_starts(longer) == starts.push(titles.len() as int));
        assert(collapsed(longer) =~= collapsed(titles).push(next));
    } else {
        assert(run_starts(longer) == starts);
        assert(collapsed(longer) =~= collapsed(titles));
    }
}

} // verus!

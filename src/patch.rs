use vstd::prelude::*;

verus! {

/// `pat` stands in `s` starting at position `i`.
pub open spec fn occurs_at(s: Seq<u8>, i: int, pat: Seq<u8>) -> bool {
    0 <= i && i + pat.len() <= s.len() && s.subrange(i, i + pat.len()) == pat
}

/// `pat` stands somewhere in `s`.
pub open spec fn contains(s: Seq<u8>, pat: Seq<u8>) -> bool {
    exists|i: int| occurs_at(s, i, pat)
}

/// `s` with every occurrence of `from`, found from left to right without
/// overlap, replaced by `to`. An empty `from` matches nowhere.
pub open spec fn replaced(s: Seq<u8>, from: Seq<u8>, to: Seq<u8>) -> Seq<u8>
    decreases s.len(),
{
    if from.len() == 0 || s.len() < from.len() {
        s
    } else if s.subrange(0, from.len() as int) == from {
        to + replaced(s.subrange(from.len() as int, s.len() as int), from, to)
    } else {
        seq![s[0]] + replaced(s.subrange(1, s.len() as int), from, to)
    }
}

/// One literal text substitution: every `from` becomes `to`.
pub struct Substitution {
    pub from: Vec<u8>,
    pub to: Vec<u8>,
}

impl View for Substitution {
    type V = (Seq<u8>, Seq<u8>);

    open spec fn view(&self) -> (Seq<u8>, Seq<u8>) {
        (self.from@, self.to@)
    }
}

/// The substitutions `subs`, applied to `s` one after the other.
pub open spec fn substituted(s: Seq<u8>, subs: Seq<(Seq<u8>, Seq<u8>)>) -> Seq<u8>
    decreases subs.len(),
{
    if subs.len() == 0 {
        s
    } else {
        substituted(replaced(s, subs[0].0, subs[0].1), subs.subrange(1, subs.len() as int))
    }
}

/// The views of a list of substitutions.
pub open spec fn substitution_views(subs: Seq<Substitution>) -> Seq<(Seq<u8>, Seq<u8>)> {
    subs.map_values(|sub: Substitution| sub@)
}

/// A literal that does not stand in the text leaves it as it is: a
/// substitution whose pattern went missing upstream is silently a no-op.
pub proof fn lemma_absent_literal_is_no_op(s: Seq<u8>, from: Seq<u8>, to: Seq<u8>)
    requires
        !contains(s, from),
    ensures
        replaced(s, from, to) == s,
    decreases s.len(),
{
    if from.len() == 0 || s.len() < from.len() {
    } else {
        if s.subrange(0, from.len() as int) == from {
            assert(occurs_at(s, 0, from));
        }
        let rest = s.subrange(1, s.len() as int);
        assert forall|i: int| !occurs_at(rest, i, from) by {
            if occurs_at(rest, i, from) {
                assert(s.subrange(i + 1, i + 1 + from.len()) =~= rest.subrange(i, i + from.len()));
                assert(occurs_at(s, i + 1, from));
            }
        }
        lemma_absent_literal_is_no_op(rest, from, to);
        assert(seq![s[0]] + rest =~= s);
    }
}

/// Patching depends on the text and the substitutions alone: two runs over
/// the same pristine text with the same substitutions give the same bytes.
pub proof fn lemma_patching_reproducible(
    first: Seq<u8>,
    second: Seq<u8>,
    subs: Seq<(Seq<u8>, Seq<u8>)>,
)
    requires
        first == second,
    ensures
        substituted(first, subs) == substituted(second, subs),
{
}

/// Whether `pat` stands in `s` at position `i`.
fn occurs_at_index(s: &Vec<u8>, i: usize, pat: &Vec<u8>) -> (r: bool)
    requires
        i <= s@.len(),
    ensures
        r == occurs_at(s@, i as int, pat@),
{
    let n: usize = s.len();
    if pat.len() > n - i {
        return false;
    }
    let mut k: usize = 0;
    while k < pat.len()
        invariant
            k <= pat@.len(),
            n == s@.len(),
            i + pat@.len() <= n,
            forall|j: int| 0 <= j < k ==> s@[i + j] == pat@[j],
        decreases pat@.len() - k,
    {
        if s[i + k] != pat[k] {
            assert(s@.subrange(i as int, i + pat@.len())[k as int] != pat@[k as int]);
            return false;
        }
        k = k + 1;
    }
    assert(s@.subrange(i as int, i + pat@.len()) =~= pat@);
    true
}

/// `text` with every occurrence of `from`, found from left to right without
/// overlap, replaced by `to`. An empty `from` leaves the text as it is.
pub fn replace_literal(text: &Vec<u8>, from: &Vec<u8>, to: &Vec<u8>) -> (r: Vec<u8>)
    ensures
        r@ == replaced(text@, from@, to@),
{
    let mut out: Vec<u8> = Vec::new();
    let mut i: usize = 0;
    assert(text@.subrange(0, text@.len() as int) =~= text@);
    assert(out@ + text@ =~= text@);
    while i < text.len()
        invariant
            i <= text@.len(),
            out@ + replaced(text@.subrange(i as int, text@.len() as int), from@, to@)
                == replaced(text@, from@, to@),
        decreases text@.len() - i,
    {
        let ghost rest = text@.subrange(i as int, text@.len() as int);
        if from.len() > 0 && occurs_at_index(text, i, from) {
            assert(rest.subrange(0, from@.len() as int) =~= text@.subrange(
                i as int,
                i + from@.len(),
            ));
            assert(rest.subrange(from@.len() as int, rest.len() as int) =~= text@.subrange(
                i + from@.len(),
                text@.len() as int,
            ));
            let ghost before = out@;
            let mut k: usize = 0;
            while k < to.len()
                invariant
                    k <= to@.len(),
                    out@ == before + to@.subrange(0, k as int),
                decreases to@.len() - k,
            {
                out.push(to[k]);
                k = k + 1;
                assert(out@ =~= before + to@.subrange(0, k as int));
            }
            assert(to@.subrange(0, to@.len() as int) =~= to@);
            assert(out@ + replaced(
                text@.subrange(i + from@.len(), text@.len() as int),
                from@,
                to@,
            ) =~= before + replaced(rest, from@, to@));
            i = i + from.len();
        } else {
            let ghost before = out@;
            let ghost tail = text@.subrange(i + 1, text@.len() as int);
            assert(rest.subrange(1, rest.len() as int) =~= tail);
            proof {
                if from@.len() > 0 && rest.len() >= from@.len() {
                    assert(rest.subrange(0, from@.len() as int) =~= text@.subrange(
                        i as int,
                        i + from@.len(),
                    ));
                    assert(replaced(rest, from@, to@) == seq![text@[i as int]] + replaced(
                        tail,
                        from@,
                        to@,
                    ));
                } else {
                    if from@.len() > 0 {
                        lemma_short_text_unchanged(tail, from@, to@);
                    }
                    assert(replaced(rest, from@, to@) == rest);
                    assert(rest =~= seq![text@[i as int]] + tail);
                }
            }
            out.push(text[i]);
            assert(out@ + replaced(tail, from@, to@) =~= before + (seq![text@[i as int]]
                + replaced(tail, from@, to@)));
            i = i + 1;
        }
    }
    assert(text@.subrange(i as int, text@.len() as int) =~= Seq::<u8>::empty());
    assert(out@ + Seq::<u8>::empty() =~= out@);
    out
}

proof fn lemma_short_text_unchanged(s: Seq<u8>, from: Seq<u8>, to: Seq<u8>)
    requires
        s.len() < from.len(),
    ensures
        replaced(s, from, to) == s,
{
}

/// `text` with each of `subs` applied in turn.
pub fn apply_substitutions(text: &Vec<u8>, subs: &Vec<Substitution>) -> (r: Vec<u8>)
    ensures
        r@ == substituted(text@, substitution_views(subs@)),
{
    let ghost all = substitution_views(subs@);
    let mut cur: Vec<u8> = text.clone();
    assert(cur@ =~= text@);
    assert(all.subrange(0, all.len() as int) =~= all);
    let mut k: usize = 0;
    while k < subs.len()
        invariant
            k <= subs@.len(),
            all == substitution_views(subs@),
            substituted(cur@, all.subrange(k as int, all.len() as int)) == substituted(
                text@,
                all,
            ),
        decreases subs@.len() - k,
    {
        let ghost remaining = all.subrange(k as int, all.len() as int);
        assert(remaining.subrange(1, remaining.len() as int) =~= all.subrange(
            k + 1,
            all.len() as int,
        ));
        assert(remaining[0] == subs@[k as int]@);
        cur = replace_literal(&cur, &subs[k].from, &subs[k].to);
        k = k + 1;
    }
    assert(all.subrange(k as int, all.len() as int) =~= Seq::<(Seq<u8>, Seq<u8>)>::empty());
    cur
}

} // verus!

//! The topic-pattern router.
//!
//! A pattern is a `/`-separated sequence of segments: a literal segment
//! matches itself, a segment `:name` matches exactly one topic segment, and a
//! final segment `*name` matches one or more remaining segments. Among the
//! patterns matching a topic the most specific wins: at the first segment
//! where they differ in kind, a literal beats a capture and a capture beats a
//! catch-all. For the broker's benefit each pattern is rewritten into an MQTT
//! topic filter: `:name` becomes `+` and a final `*name` becomes `#`.

use vstd::prelude::*;

verus! {

/// The segments of a topic or pattern: the pieces between the `/` separators.
/// An empty text has one empty segment; a separator always parts two
/// segments, so `a//b` has an empty middle segment.
pub open spec fn split_segments(s: Seq<char>) -> Seq<Seq<char>>
    decreases s.len(),
{
    if s.len() == 0 {
        seq![Seq::<char>::empty()]
    } else if s[0] == '/' {
        seq![Seq::<char>::empty()] + split_segments(s.drop_first())
    } else {
        let rest = split_segments(s.drop_first());
        seq![seq![s[0]] + rest[0]] + rest.drop_first()
    }
}

/// Splitting never yields an empty segment list.
pub proof fn lemma_split_segments_len(s: Seq<char>)
    ensures
        split_segments(s).len() >= 1,
    decreases s.len(),
{
    if s.len() != 0 {
        lemma_split_segments_len(s.drop_first());
    }
}

/// How one more character extends a split: a separator opens a fresh empty
/// segment, any other character extends the last one.
proof fn lemma_split_push(s: Seq<char>, c: char)
    ensures
        c == '/' ==> split_segments(s.push(c)) =~~= split_segments(s).push(Seq::<char>::empty()),
        c != '/' ==> split_segments(s.push(c)) =~~= split_segments(s).update(
            split_segments(s).len() - 1,
            split_segments(s).last().push(c),
        ),
    decreases s.len(),
{
    lemma_split_segments_len(s);
    let sp = s.push(c);
    if s.len() == 0 {
        assert(sp[0] == c);
        assert(sp.drop_first() =~= s);
        if c == '/' {
            assert(split_segments(sp) =~~= split_segments(s).push(Seq::<char>::empty()));
        } else {
            assert(split_segments(sp) =~~= split_segments(s).update(
                split_segments(s).len() - 1,
                split_segments(s).last().push(c),
            ));
        }
    } else {
        let sdf = s.drop_first();
        let r = split_segments(sdf);
        lemma_split_segments_len(sdf);
        lemma_split_push(sdf, c);
        assert(sp.drop_first() =~= sdf.push(c));
        assert(sp[0] == s[0]);
        let rp = split_segments(sp.drop_first());
        if c == '/' {
            assert(rp =~~= r.push(Seq::<char>::empty()));
            if s[0] == '/' {
                assert(split_segments(sp) =~~= split_segments(s).push(Seq::<char>::empty()));
            } else {
                assert(rp[0] == r[0]);
                assert(rp.drop_first() =~= r.drop_first().push(Seq::<char>::empty()));
                assert(split_segments(sp) =~~= split_segments(s).push(Seq::<char>::empty()));
            }
        } else {
            assert(rp =~~= r.update(r.len() - 1, r.last().push(c)));
            if s[0] == '/' {
                assert(split_segments(s) =~= seq![Seq::<char>::empty()] + r);
                assert(split_segments(s).last() == r.last());
                assert(split_segments(sp) =~~= split_segments(s).update(
                    split_segments(s).len() - 1,
                    split_segments(s).last().push(c),
                ));
            } else {
                if r.len() == 1 {
                    assert(rp[0] =~= r[0].push(c));
                    assert(split_segments(s) =~= seq![seq![s[0]] + r[0]]);
                    assert(split_segments(sp)[0] =~= (seq![s[0]] + r[0]).push(c));
                    assert(split_segments(sp) =~~= split_segments(s).update(
                        split_segments(s).len() - 1,
                        split_segments(s).last().push(c),
                    ));
                } else {
                    assert(rp[0] == r[0]);
                    assert(rp.drop_first() =~= r.drop_first().update(
                        r.len() - 2,
                        r.last().push(c),
                    ));
                    assert(split_segments(s).last() == r.last());
                    assert(split_segments(sp) =~~= split_segments(s).update(
                        split_segments(s).len() - 1,
                        split_segments(s).last().push(c),
                    ));
                }
            }
        }
    }
}

/// Split a text into its `/`-separated segments.
pub fn split_topic(s: &str) -> (r: Vec<String>)
    ensures
        r.deep_view() =~~= split_segments(s@),
{
    let n = s.unicode_len();
    let mut segs: Vec<String> = Vec::new();
    let mut start: usize = 0;
    let mut i: usize = 0;
    proof {
        assert(s@.take(0) =~= Seq::<char>::empty());
        assert(segs.deep_view().push(s@.subrange(0, 0)) =~~= split_segments(s@.take(0)));
    }
    while i < n
        invariant
            start <= i <= n,
            n == s@.len(),
            split_segments(s@.take(i as int)) =~~= segs.deep_view().push(
                s@.subrange(start as int, i as int),
            ),
        decreases n - i,
    {
        let c = s.get_char(i);
        proof {
            lemma_split_push(s@.take(i as int), c);
            assert(s@.take(i + 1) =~= s@.take(i as int).push(c));
        }
        if c == '/' {
            let seg = s.substring_char(start, i).to_owned();
            let ghost pre = segs.deep_view();
            segs.push(seg);
            proof {
                assert(segs.deep_view() =~~= pre.push(seg@));
            }
            start = i + 1;
        } else {
            proof {
                assert(s@.subrange(start as int, i + 1) =~= s@.subrange(
                    start as int,
                    i as int,
                ).push(c));
            }
        }
        i = i + 1;
    }
    let seg = s.substring_char(start, n).to_owned();
    let ghost pre = segs.deep_view();
    segs.push(seg);
    proof {
        assert(segs.deep_view() =~~= pre.push(seg@));
        assert(s@.take(n as int) =~= s@);
    }
    segs
}

/// A capture segment: `:name`.
pub open spec fn is_param_seg(seg: Seq<char>) -> bool {
    seg.len() >= 1 && seg[0] == ':'
}

/// A catch-all segment: `*name`.
pub open spec fn is_catch_all_seg(seg: Seq<char>) -> bool {
    seg.len() >= 1 && seg[0] == '*'
}

/// A literal segment: anything that is neither capture nor catch-all.
pub open spec fn is_literal_seg(seg: Seq<char>) -> bool {
    !is_param_seg(seg) && !is_catch_all_seg(seg)
}

/// How specific a segment kind is: a literal beats a capture beats a
/// catch-all.
pub open spec fn seg_rank(seg: Seq<char>) -> int {
    if is_catch_all_seg(seg) {
        0
    } else if is_param_seg(seg) {
        1
    } else {
        2
    }
}

/// A well-formed pattern: at least one segment; captures and catch-alls have
/// a name; a catch-all only at the end; literals hold none of the filter
/// wildcard characters.
pub open spec fn valid_pattern(p: Seq<Seq<char>>) -> bool {
    &&& p.len() >= 1
    &&& forall|i: int|
        0 <= i < p.len() ==> {
            &&& (is_param_seg(#[trigger] p[i]) ==> p[i].len() >= 2)
            &&& (is_catch_all_seg(p[i]) ==> p[i].len() >= 2 && i == p.len() - 1)
            &&& (is_literal_seg(p[i]) ==> !p[i].contains('+') && !p[i].contains('#'))
        }
}

/// Whether a pattern matches a topic, segment for segment: a literal matches
/// itself, a capture matches any one segment, a final catch-all matches the
/// one or more remaining segments.
pub open spec fn pattern_matches(p: Seq<Seq<char>>, t: Seq<Seq<char>>) -> bool
    decreases p.len(),
{
    if p.len() == 0 {
        t.len() == 0
    } else if is_catch_all_seg(p[0]) {
        p.len() == 1 && t.len() >= 1
    } else if is_param_seg(p[0]) {
        t.len() >= 1 && pattern_matches(p.drop_first(), t.drop_first())
    } else {
        t.len() >= 1 && p[0] == t[0] && pattern_matches(p.drop_first(), t.drop_first())
    }
}

/// Two patterns of the same shape: same length, same segment kinds, and the
/// same literals. Two such patterns match exactly the same topics and cannot
/// be told apart, so a router never holds two of them.
pub open spec fn shape_eq(a: Seq<Seq<char>>, b: Seq<Seq<char>>) -> bool {
    &&& a.len() == b.len()
    &&& forall|i: int|
        0 <= i < a.len() ==> {
            &&& seg_rank(#[trigger] a[i]) == seg_rank(#[trigger] b[i])
            &&& (is_literal_seg(a[i]) ==> a[i] == b[i])
        }
}

/// Whether pattern `a` is more specific than pattern `b`: at the first
/// segment where their kinds differ, `a`'s kind ranks higher.
pub open spec fn beats(a: Seq<Seq<char>>, b: Seq<Seq<char>>) -> bool
    decreases a.len(),
{
    if a.len() == 0 || b.len() == 0 {
        false
    } else if seg_rank(a[0]) != seg_rank(b[0]) {
        seg_rank(a[0]) > seg_rank(b[0])
    } else {
        beats(a.drop_first(), b.drop_first())
    }
}

/// Precedence is transitive.
pub proof fn lemma_beats_trans(a: Seq<Seq<char>>, b: Seq<Seq<char>>, c: Seq<Seq<char>>)
    requires
        beats(a, b),
        beats(b, c),
    ensures
        beats(a, c),
    decreases a.len(),
{
    if seg_rank(a[0]) == seg_rank(b[0]) && seg_rank(b[0]) == seg_rank(c[0]) {
        lemma_beats_trans(a.drop_first(), b.drop_first(), c.drop_first());
    }
}

/// Two patterns of different shape that match the same topic are ordered by
/// precedence, one way or the other.
pub proof fn lemma_beats_total(a: Seq<Seq<char>>, b: Seq<Seq<char>>, t: Seq<Seq<char>>)
    requires
        !shape_eq(a, b),
        pattern_matches(a, t),
        pattern_matches(b, t),
    ensures
        beats(a, b) || beats(b, a),
    decreases a.len(),
{
    if a.len() == 0 {
        assert(t.len() == 0);
        assert(b.len() == 0);
        assert(shape_eq(a, b));
    } else if b.len() == 0 {
        assert(t.len() == 0);
        assert(a.len() == 0);
    } else if seg_rank(a[0]) != seg_rank(b[0]) {
    } else if is_catch_all_seg(a[0]) {
        assert(a.len() == 1 && b.len() == 1);
        assert(shape_eq(a, b));
    } else {
        let a2 = a.drop_first();
        let b2 = b.drop_first();
        let t2 = t.drop_first();
        if shape_eq(a2, b2) {
            assert forall|i: int| 0 <= i < a.len() implies {
                &&& seg_rank(#[trigger] a[i]) == seg_rank(#[trigger] b[i])
                &&& (is_literal_seg(a[i]) ==> a[i] == b[i])
            } by {
                if i > 0 {
                    assert(a[i] == a2[i - 1]);
                    assert(b[i] == b2[i - 1]);
                    assert(seg_rank(a2[i - 1]) == seg_rank(b2[i - 1]));
                }
            }
            assert(shape_eq(a, b));
        }
        lemma_beats_total(a2, b2, t2);
    }
}

/// The kind of the segment, as the matcher ranks it.
fn seg_rank_exec(s: &String) -> (r: u8)
    ensures
        r as int == seg_rank(s@),
{
    if s.as_str().is_empty() {
        return 2;
    }
    let c = s.as_str().get_char(0);
    if c == '*' {
        0
    } else if c == ':' {
        1
    } else {
        2
    }
}

/// Whether the pattern's segments from position `i` on match the topic's.
fn seg_match(p: &Vec<String>, t: &Vec<String>, i: usize) -> (b: bool)
    requires
        i <= p.len(),
        i <= t.len(),
    ensures
        b == pattern_matches(p.deep_view().skip(i as int), t.deep_view().skip(i as int)),
    decreases p.len() - i,
{
    let ghost ps = p.deep_view().skip(i as int);
    let ghost ts = t.deep_view().skip(i as int);
    if i == p.len() {
        proof {
            assert(ps.len() == 0);
        }
        return t.len() == i;
    }
    proof {
        assert(ps[0] == p.deep_view()[i as int]);
        assert(p.deep_view()[i as int] == p@[i as int]@);
    }
    let rank = seg_rank_exec(&p[i]);
    if rank == 0 {
        return i + 1 == p.len() && t.len() >= i + 1;
    }
    if i == t.len() {
        return false;
    }
    proof {
        assert(ts[0] == t@[i as int]@);
        assert(ps.drop_first() =~~= p.deep_view().skip(i + 1));
        assert(ts.drop_first() =~~= t.deep_view().skip(i + 1));
    }
    if rank == 1 {
        seg_match(p, t, i + 1)
    } else {
        if p[i] == t[i] {
            seg_match(p, t, i + 1)
        } else {
            false
        }
    }
}

/// Whether the pattern in `a`, from position `i` on, is more specific than
/// the one in `b`.
fn beats_exec(a: &Vec<String>, b: &Vec<String>, i: usize) -> (r: bool)
    requires
        i <= a.len(),
        i <= b.len(),
    ensures
        r == beats(a.deep_view().skip(i as int), b.deep_view().skip(i as int)),
    decreases a.len() - i,
{
    if i == a.len() || i == b.len() {
        return false;
    }
    proof {
        assert(a.deep_view().skip(i as int)[0] == a@[i as int]@);
        assert(b.deep_view().skip(i as int)[0] == b@[i as int]@);
        assert(a.deep_view().skip(i as int).drop_first() =~~= a.deep_view().skip(i + 1));
        assert(b.deep_view().skip(i as int).drop_first() =~~= b.deep_view().skip(i + 1));
    }
    let ra = seg_rank_exec(&a[i]);
    let rb = seg_rank_exec(&b[i]);
    if ra != rb {
        ra > rb
    } else {
        beats_exec(a, b, i + 1)
    }
}

/// The registered patterns, in registration order. Handlers live with
/// whoever owns the router, keyed by the index this router hands out.
pub struct TopicRouter {
    routes: Vec<String>,
}

impl View for TopicRouter {
    type V = Seq<Seq<char>>;

    closed spec fn view(&self) -> Seq<Seq<char>> {
        self.routes.deep_view()
    }
}

impl TopicRouter {
    /// Well-formedness: every pattern is valid, and no two have the same
    /// shape — two same-shaped patterns would match exactly the same topics.
    pub open spec fn wf(self) -> bool {
        &&& forall|i: int|
            0 <= i < self@.len() ==> valid_pattern(split_segments(#[trigger] self@[i]))
        &&& forall|i: int, j: int|
            0 <= i < self@.len() && 0 <= j < self@.len() && i != j ==> !shape_eq(
                split_segments(#[trigger] self@[i]),
                split_segments(#[trigger] self@[j]),
            )
    }

    /// A router with no routes.
    pub fn new() -> (r: TopicRouter)
        ensures
            r@ =~~= Seq::<Seq<char>>::empty(),
            r.wf(),
    {
        let r = TopicRouter { routes: Vec::new() };
        proof {
            assert(r@ =~~= Seq::<Seq<char>>::empty());
        }
        r
    }

    /// Whether `add` will take this pattern: it must be well-formed and must
    /// not collide with a differently named pattern of the same shape.
    pub fn can_add(&self, route: &str) -> (r: bool)
        ensures
            r == (valid_pattern(split_segments(route@)) && (forall|j: int|
                0 <= j < self@.len() && shape_eq(
                    split_segments(#[trigger] self@[j]),
                    split_segments(route@),
                ) ==> self@[j] == route@)),
    {
        if !is_valid_pattern(route) {
            return false;
        }
        let rsegs = split_topic(route);
        let owned = route.to_owned();
        let n = self.routes.len();
        let mut i: usize = 0;
        while i < n
            invariant
                i <= n,
                n == self@.len(),
                owned@ == route@,
                rsegs.deep_view() =~~= split_segments(route@),
                forall|j: int|
                    0 <= j < i && shape_eq(
                        split_segments(#[trigger] self@[j]),
                        split_segments(route@),
                    ) ==> self@[j] == route@,
            decreases n - i,
        {
            let psegs = split_topic(&self.routes[i]);
            proof {
                assert(psegs.deep_view() =~~= split_segments(self@[i as int]));
            }
            if shape_eq_exec(&psegs, &rsegs) {
                if !(self.routes[i] == owned) {
                    return false;
                }
            }
            i = i + 1;
        }
        true
    }

    /// Register a pattern and hand back its index. A pattern registered
    /// twice keeps its first index; a pattern of the same shape as an
    /// existing one under another name is not accepted.
    pub fn add(&mut self, route: &str) -> (idx: usize)
        requires
            old(self).wf(),
            valid_pattern(split_segments(route@)),
            forall|j: int|
                0 <= j < old(self)@.len() && shape_eq(
                    split_segments(#[trigger] old(self)@[j]),
                    split_segments(route@),
                ) ==> old(self)@[j] == route@,
        ensures
            final(self).wf(),
            idx < final(self)@.len(),
            final(self)@[idx as int] == route@,
            old(self)@.contains(route@) ==> final(self)@ == old(self)@,
            !old(self)@.contains(route@) ==> final(self)@ =~~= old(self)@.push(route@) && idx
                == old(self)@.len(),
    {
        let owned = route.to_owned();
        let n = self.routes.len();
        let mut i: usize = 0;
        while i < n
            invariant
                self == old(self),
                old(self).wf(),
                valid_pattern(split_segments(route@)),
                forall|j: int|
                    0 <= j < old(self)@.len() && shape_eq(
                        split_segments(#[trigger] old(self)@[j]),
                        split_segments(route@),
                    ) ==> old(self)@[j] == route@,
                n == self@.len(),
                i <= n,
                owned@ == route@,
                forall|j: int| 0 <= j < i ==> self@[j] != route@,
            decreases n - i,
        {
            if self.routes[i] == owned {
                proof {
                    assert(self@[i as int] == route@);
                    assert(self@.contains(route@));
                    assert(self.wf());
                }
                return i;
            }
            i = i + 1;
        }
        let ghost pre = self@;
        self.routes.push(owned);
        proof {
            assert(self@ =~~= pre.push(route@));
            assert(!pre.contains(route@));
            assert forall|x: int, y: int|
                0 <= x < self@.len() && 0 <= y < self@.len() && x != y implies !shape_eq(
                    split_segments(#[trigger] self@[x]),
                    split_segments(#[trigger] self@[y]),
                ) by {
                if x < pre.len() && y < pre.len() {
                } else if x == pre.len() {
                    assert(self@[x] == route@);
                    if shape_eq(split_segments(route@), split_segments(pre[y])) {
                        lemma_shape_eq_sym(split_segments(route@), split_segments(pre[y]));
                    }
                } else {
                    assert(self@[y] == route@);
                }
            }
        }
        n
    }

    /// The most specific registered pattern matching the topic, if any.
    ///
    /// Yields the index of a matching pattern that beats every other
    /// matching one; nothing exactly when no pattern matches.
    pub fn match_topic(&self, topic: &str) -> (r: Option<usize>)
        requires
            self.wf(),
        ensures
            r matches Some(i) ==> {
                &&& i < self@.len()
                &&& pattern_matches(split_segments(self@[i as int]), split_segments(topic@))
                &&& forall|j: int|
                    0 <= j < self@.len() && j != i && pattern_matches(
                        split_segments(#[trigger] self@[j]),
                        split_segments(topic@),
                    ) ==> beats(split_segments(self@[i as int]), split_segments(self@[j]))
            },
            r is None ==> forall|j: int|
                0 <= j < self@.len() ==> !pattern_matches(
                    split_segments(#[trigger] self@[j]),
                    split_segments(topic@),
                ),
    {
        let ghost tsegs = split_segments(topic@);
        let t = split_topic(topic);
        let n = self.routes.len();
        let mut best: Option<usize> = None;
        let mut best_segs: Vec<String> = Vec::new();
        let mut idx: usize = 0;
        while idx < n
            invariant
                n == self@.len(),
                idx <= n,
                t.deep_view() =~~= tsegs,
                tsegs == split_segments(topic@),
                self.wf(),
                best matches Some(b) ==> {
                    &&& b < idx
                    &&& best_segs.deep_view() == split_segments(self@[b as int])
                    &&& pattern_matches(split_segments(self@[b as int]), tsegs)
                    &&& forall|j: int|
                        0 <= j < idx && j != b && pattern_matches(
                            split_segments(#[trigger] self@[j]),
                            tsegs,
                        ) ==> beats(split_segments(self@[b as int]), split_segments(self@[j]))
                },
                best is None ==> forall|j: int|
                    0 <= j < idx ==> !pattern_matches(split_segments(#[trigger] self@[j]), tsegs),
            decreases n - idx,
        {
            let p = split_topic(&self.routes[idx]);
            proof {
                assert(p.deep_view() =~~= split_segments(self@[idx as int]));
                assert(p.deep_view().skip(0) =~~= p.deep_view());
                assert(t.deep_view().skip(0) =~~= t.deep_view());
            }
            if seg_match(&p, &t, 0) {
                match best {
                    None => {
                        best = Some(idx);
                        best_segs = p;
                    },
                    Some(b) => {
                        proof {
                            assert(best_segs.deep_view().skip(0) =~~= best_segs.deep_view());
                        }
                        if beats_exec(&p, &best_segs, 0) {
                            proof {
                                assert forall|j: int|
                                    0 <= j < idx && j != idx && pattern_matches(
                                        split_segments(#[trigger] self@[j]),
                                        tsegs,
                                    ) implies beats(
                                        split_segments(self@[idx as int]),
                                        split_segments(self@[j]),
                                    ) by {
                                    if j != b {
                                        lemma_beats_trans(
                                            split_segments(self@[idx as int]),
                                            split_segments(self@[b as int]),
                                            split_segments(self@[j]),
                                        );
                                    }
                                }
                            }
                            best = Some(idx);
                            best_segs = p;
                        } else {
                            proof {
                                lemma_beats_total(
                                    split_segments(self@[idx as int]),
                                    split_segments(self@[b as int]),
                                    tsegs,
                                );
                            }
                        }
                    },
                }
            }
            idx = idx + 1;
        }
        best
    }
}

/// One segment of the filter a pattern is rewritten into: a capture becomes
/// the one-segment wildcard `+`, a final catch-all becomes the multi-segment
/// wildcard `#`, a literal stays itself.
pub open spec fn rewrite_seg(seg: Seq<char>, last: bool) -> Seq<char> {
    if is_catch_all_seg(seg) && last {
        seq!['#']
    } else if is_param_seg(seg) {
        seq!['+']
    } else {
        seg
    }
}

/// The MQTT topic filter a pattern is rewritten into, segment for segment.
pub open spec fn rewrite_filter(p: Seq<Seq<char>>) -> Seq<Seq<char>> {
    Seq::new(p.len(), |i: int| rewrite_seg(p[i], i == p.len() - 1))
}

/// Segments joined back into a text with `/` separators.
pub open spec fn join_segments(ss: Seq<Seq<char>>) -> Seq<char>
    decreases ss.len(),
{
    if ss.len() == 0 {
        Seq::empty()
    } else if ss.len() == 1 {
        ss[0]
    } else {
        ss[0] + seq!['/'] + join_segments(ss.drop_first())
    }
}

/// The filter text a pattern text is rewritten into.
pub open spec fn filter_of(pattern: Seq<char>) -> Seq<char> {
    join_segments(rewrite_filter(split_segments(pattern)))
}

/// Whether an MQTT topic filter accepts a topic: `+` accepts any one
/// segment, `#` accepts everything from its level down — the parent level
/// included — and a literal accepts itself.
pub open spec fn filter_accepts(f: Seq<Seq<char>>, t: Seq<Seq<char>>) -> bool
    decreases f.len(),
{
    if f.len() == 0 {
        t.len() == 0
    } else if f[0] == seq!['#'] {
        true
    } else if f[0] == seq!['+'] {
        t.len() >= 1 && filter_accepts(f.drop_first(), t.drop_first())
    } else {
        t.len() >= 1 && f[0] == t[0] && filter_accepts(f.drop_first(), t.drop_first())
    }
}

/// Law: rewriting a pattern into its filter loses no matches — a topic the
/// filter accepts is matched by the pattern itself.
///
/// The one exception is built into the hypotheses: the filter `a/#` also
/// accepts the parent topic `a`, which a catch-all pattern `a/*rest` (one or
/// more segments) does not match, so for patterns ending in a catch-all the
/// topic must reach the catch-all's level.
pub proof fn lemma_filter_accepts_implies_match(p: Seq<Seq<char>>, t: Seq<Seq<char>>)
    requires
        valid_pattern(p),
        filter_accepts(rewrite_filter(p), t),
        is_catch_all_seg(p.last()) ==> t.len() >= p.len(),
    ensures
        pattern_matches(p, t),
    decreases p.len(),
{
    let f = rewrite_filter(p);
    assert(f.len() == p.len());
    assert(f[0] == rewrite_seg(p[0], 0 == p.len() - 1));
    if is_catch_all_seg(p[0]) {
        assert(p.len() == 1);
        assert(t.len() >= 1);
    } else if is_param_seg(p[0]) {
        assert(f[0] == seq!['+']);
        if f[0] == seq!['#'] {
            assert(f[0][0] == '+');
            assert((seq!['#'])[0] == '#');
            assert(false);
        }
        assert(t.len() >= 1);
        if p.len() == 1 {
            assert(f.drop_first().len() == 0);
            assert(filter_accepts(f.drop_first(), t.drop_first()));
            assert(t.drop_first().len() == 0);
            assert(pattern_matches(p.drop_first(), t.drop_first()));
        } else {
            lemma_rewrite_drop_first(p);
            lemma_valid_drop_first(p);
            lemma_filter_accepts_implies_match(p.drop_first(), t.drop_first());
        }
    } else {
        assert(is_literal_seg(p[0]));
        assert(f[0] == p[0]);
        if p[0] == seq!['#'] {
            assert(p[0][0] == '#');
            assert(p[0].contains('#'));
            assert(false);
        }
        if p[0] == seq!['+'] {
            assert(p[0][0] == '+');
            assert(p[0].contains('+'));
            assert(false);
        }
        assert(t.len() >= 1 && p[0] == t[0]);
        if p.len() == 1 {
            assert(filter_accepts(f.drop_first(), t.drop_first()));
            assert(t.drop_first().len() == 0);
            assert(pattern_matches(p.drop_first(), t.drop_first()));
        } else {
            lemma_rewrite_drop_first(p);
            lemma_valid_drop_first(p);
            lemma_filter_accepts_implies_match(p.drop_first(), t.drop_first());
        }
    }
}

/// Rewriting commutes with dropping the first segment when more than one
/// segment remains.
proof fn lemma_rewrite_drop_first(p: Seq<Seq<char>>)
    requires
        p.len() >= 2,
    ensures
        rewrite_filter(p).drop_first() =~~= rewrite_filter(p.drop_first()),
{
}

/// Every nonempty suffix of a valid pattern is a valid pattern.
proof fn lemma_valid_drop_first(p: Seq<Seq<char>>)
    requires
        valid_pattern(p),
        p.len() >= 2,
    ensures
        valid_pattern(p.drop_first()),
{
    let q = p.drop_first();
    assert forall|i: int| 0 <= i < q.len() implies {
        &&& (is_param_seg(#[trigger] q[i]) ==> q[i].len() >= 2)
        &&& (is_catch_all_seg(q[i]) ==> q[i].len() >= 2 && i == q.len() - 1)
        &&& (is_literal_seg(q[i]) ==> !q[i].contains('+') && !q[i].contains('#'))
    } by {
        assert(q[i] == p[i + 1]);
        assert((is_param_seg(p[i + 1]) ==> p[i + 1].len() >= 2) && (is_catch_all_seg(p[i + 1])
            ==> p[i + 1].len() >= 2 && i + 1 == p.len() - 1) && (is_literal_seg(p[i + 1]) ==> !p[
            i + 1
        ].contains('+') && !p[i + 1].contains('#')));
    }
}

/// How joining extends when one more segment is appended.
proof fn lemma_join_push(ss: Seq<Seq<char>>, x: Seq<char>)
    ensures
        ss.len() == 0 ==> join_segments(ss.push(x)) =~= x,
        ss.len() >= 1 ==> join_segments(ss.push(x)) =~= join_segments(ss) + seq!['/'] + x,
    decreases ss.len(),
{
    if ss.len() == 0 {
        assert(join_segments(ss.push(x)) == ss.push(x)[0]);
    } else {
        lemma_join_push(ss.drop_first(), x);
        assert(ss.push(x).drop_first() =~~= ss.drop_first().push(x));
        if ss.len() == 1 {
            assert(join_segments(ss) == ss[0]);
        }
    }
}

/// Rewrite one pattern into the MQTT topic filter to subscribe with.
pub fn route_to_filter(pattern: &str) -> (r: String)
    ensures
        r@ == filter_of(pattern@),
{
    let segs = split_topic(pattern);
    let ghost rw = rewrite_filter(split_segments(pattern@));
    let n = segs.len();
    let mut out = String::new();
    let mut i: usize = 0;
    proof {
        assert(rw.take(0) =~~= Seq::<Seq<char>>::empty());
    }
    while i < n
        invariant
            i <= n,
            n == segs.len(),
            segs.deep_view() =~~= split_segments(pattern@),
            rw == rewrite_filter(split_segments(pattern@)),
            out@ =~= join_segments(rw.take(i as int)),
        decreases n - i,
    {
        proof {
            lemma_join_push(rw.take(i as int), rw[i as int]);
            assert(rw.take(i + 1) =~~= rw.take(i as int).push(rw[i as int]));
            assert(segs.deep_view()[i as int] == segs@[i as int]@);
        }
        if i > 0 {
            out.append("/");
        }
        let rank = seg_rank_exec(&segs[i]);
        if rank == 0 && i + 1 == n {
            out.append("#");
            proof {
                reveal_strlit("#");
                reveal_strlit("/");
                assert(rw[i as int] =~= seq!['#']);
            }
        } else if rank == 1 {
            out.append("+");
            proof {
                reveal_strlit("+");
                reveal_strlit("/");
                assert(rw[i as int] =~= seq!['+']);
            }
        } else {
            out.append(segs[i].as_str());
            proof {
                reveal_strlit("/");
                assert(rw[i as int] =~= segs@[i as int]@);
            }
        }
        proof {
            assert(out@ =~= join_segments(rw.take(i + 1)));
        }
        i = i + 1;
    }
    proof {
        assert(rw.take(n as int) =~~= rw);
    }
    out
}

impl TopicRouter {
    /// The filters of every registered pattern, in registration order: what
    /// one SUBSCRIBE at connection time asks the broker for.
    pub fn subscribe_filters(&self) -> (r: Vec<String>)
        ensures
            r.len() == self@.len(),
            forall|i: int| 0 <= i < self@.len() ==> #[trigger] r.deep_view()[i] == filter_of(
                self@[i],
            ),
    {
        let n = self.routes.len();
        let mut out: Vec<String> = Vec::new();
        let mut i: usize = 0;
        while i < n
            invariant
                i <= n,
                n == self.routes.len(),
                out.len() == i,
                forall|j: int| 0 <= j < i ==> #[trigger] out.deep_view()[j] == filter_of(self@[j]),
            decreases n - i,
        {
            let f = route_to_filter(&self.routes[i]);
            let ghost pre = out.deep_view();
            out.push(f);
            proof {
                assert(out.deep_view() =~~= pre.push(f@));
            }
            i = i + 1;
        }
        out
    }
}

/// Whether a text is a well-formed pattern.
pub fn is_valid_pattern(route: &str) -> (r: bool)
    ensures
        r == valid_pattern(split_segments(route@)),
{
    let segs = split_topic(route);
    let n = segs.len();
    proof {
        assert(segs.deep_view() =~~= split_segments(route@));
        lemma_split_segments_len(route@);
    }
    let mut i: usize = 0;
    while i < n
        invariant
            i <= n,
            n == segs.len(),
            segs.deep_view() =~~= split_segments(route@),
            forall|k: int|
                0 <= k < i ==> {
                    &&& (is_param_seg(#[trigger] segs.deep_view()[k]) ==> segs.deep_view()[k].len()
                        >= 2)
                    &&& (is_catch_all_seg(segs.deep_view()[k]) ==> segs.deep_view()[k].len() >= 2
                        && k == n - 1)
                    &&& (is_literal_seg(segs.deep_view()[k]) ==> !segs.deep_view()[k].contains('+')
                        && !segs.deep_view()[k].contains('#'))
                },
        decreases n - i,
    {
        proof {
            assert(segs.deep_view()[i as int] == segs@[i as int]@);
        }
        let rank = seg_rank_exec(&segs[i]);
        if rank == 0 {
            if !(i + 1 == n && segs[i].as_str().unicode_len() >= 2) {
                return false;
            }
        } else if rank == 1 {
            if segs[i].as_str().unicode_len() < 2 {
                return false;
            }
        } else {
            if !literal_has_no_wildcards(&segs[i]) {
                return false;
            }
        }
        i = i + 1;
    }
    true
}

/// Whether a literal segment is free of the filter wildcard characters.
fn literal_has_no_wildcards(seg: &String) -> (r: bool)
    ensures
        r == (!seg@.contains('+') && !seg@.contains('#')),
{
    let s = seg.as_str();
    let n = s.unicode_len();
    let mut i: usize = 0;
    while i < n
        invariant
            i <= n,
            n == s@.len(),
            s@ == seg@,
            forall|k: int| 0 <= k < i ==> s@[k] != '+' && s@[k] != '#',
        decreases n - i,
    {
        let c = s.get_char(i);
        if c == '+' || c == '#' {
            return false;
        }
        i = i + 1;
    }
    true
}

/// Whether two patterns have the same shape.
fn shape_eq_exec(a: &Vec<String>, b: &Vec<String>) -> (r: bool)
    ensures
        r == shape_eq(a.deep_view(), b.deep_view()),
{
    if a.len() != b.len() {
        return false;
    }
    let n = a.len();
    let mut i: usize = 0;
    while i < n
        invariant
            i <= n,
            n == a.len() == b.len(),
            forall|k: int|
                0 <= k < i ==> {
                    &&& seg_rank(#[trigger] a.deep_view()[k]) == seg_rank(
                        #[trigger] b.deep_view()[k],
                    )
                    &&& (is_literal_seg(a.deep_view()[k]) ==> a.deep_view()[k] == b.deep_view()[k])
                },
        decreases n - i,
    {
        proof {
            assert(a.deep_view()[i as int] == a@[i as int]@);
            assert(b.deep_view()[i as int] == b@[i as int]@);
        }
        let ra = seg_rank_exec(&a[i]);
        let rb = seg_rank_exec(&b[i]);
        if ra != rb {
            return false;
        }
        if ra == 2 {
            if !(a[i] == b[i]) {
                return false;
            }
        }
        i = i + 1;
    }
    true
}

/// Shape equality is symmetric.
proof fn lemma_shape_eq_sym(a: Seq<Seq<char>>, b: Seq<Seq<char>>)
    requires
        shape_eq(a, b),
    ensures
        shape_eq(b, a),
{
    assert forall|i: int| 0 <= i < b.len() implies {
        &&& seg_rank(#[trigger] b[i]) == seg_rank(#[trigger] a[i])
        &&& (is_literal_seg(b[i]) ==> b[i] == a[i])
    } by {
        assert(seg_rank(a[i]) == seg_rank(b[i]));
    }
}

} // verus!

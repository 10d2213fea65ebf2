//! Compliance checks over the founder's recorded facts: keyword retrieval
//! over a jurisdiction rule pack, deterministic rule checks, and the overall
//! label of a report, which is never "compliant".
use vstd::prelude::*;

use crate::compliance_pack::{Rule, RulePack};
use crate::erp::Payment;
use crate::text::{decimal, two_digits, push_all, push_decimal, push_two_digits, string_of, owned, chars_of, seq_lt, lemma_seq_lt_total, lemma_seq_lt_transitive, chars_lt, push_char, push_str, views, string_views, strings_of, lower_chars, cjk, ascii_alnum, is_ascii_alnum, is_cjk, lowercase_of};

verus! {

// ---------------------------------------------------------------------------
// Tokens: ASCII words (letters, digits, '-') and bigrams of adjacent CJK
// ideographs, read from the lowercased text; tokens shorter than two
// characters are dropped and adjacent repeats collapse into one.
// ---------------------------------------------------------------------------

/// Scanner state after a prefix: tokens so far, the word being read, and the
/// CJK ideograph just before the current position, if any.
pub type ScanState = (Seq<Seq<char>>, Seq<char>, Option<char>);

pub open spec fn word_char(c: char) -> bool {
    is_ascii_alnum(c) || c == '-'
}

/// One step of the scanner over character `c`.
pub open spec fn scan_step(st: ScanState, c: char) -> ScanState {
    if word_char(c) {
        (st.0, st.1.push(c), None)
    } else {
        let out = if st.1.len() > 0 {
            st.0.push(st.1)
        } else {
            st.0
        };
        if is_cjk(c) {
            (
                match st.2 {
                    Some(p) => out.push(seq![p, c]),
                    None => out,
                },
                Seq::empty(),
                Some(c),
            )
        } else {
            (out, Seq::empty(), None)
        }
    }
}

pub open spec fn scan(s: Seq<char>) -> ScanState
    decreases s.len(),
{
    if s.len() == 0 {
        (Seq::empty(), Seq::empty(), None)
    } else {
        scan_step(scan(s.drop_last()), s.last())
    }
}

/// Every token of `s` in order, before short ones are dropped.
pub open spec fn raw_tokens(s: Seq<char>) -> Seq<Seq<char>> {
    let st = scan(s);
    if st.1.len() > 0 {
        st.0.push(st.1)
    } else {
        st.0
    }
}

/// The tokens of at least two characters, in order.
pub open spec fn long_tokens(ts: Seq<Seq<char>>) -> Seq<Seq<char>>
    decreases ts.len(),
{
    if ts.len() == 0 {
        ts
    } else if ts.last().len() >= 2 {
        long_tokens(ts.drop_last()).push(ts.last())
    } else {
        long_tokens(ts.drop_last())
    }
}

/// `Vec::dedup`: each run of equal adjacent items kept once.
pub open spec fn dedup<A>(ts: Seq<A>) -> Seq<A>
    decreases ts.len(),
{
    if ts.len() == 0 {
        ts
    } else if ts.len() >= 2 && ts[ts.len() - 1] == ts[ts.len() - 2] {
        dedup(ts.drop_last())
    } else {
        dedup(ts.drop_last()).push(ts.last())
    }
}

/// The retrieval tokens of already lowercased text.
pub open spec fn tokens_of(lower: Seq<char>) -> Seq<Seq<char>> {
    dedup(long_tokens(raw_tokens(lower)))
}

/// The retrieval tokens of a text.
pub open spec fn tokens_spec(text: Seq<char>) -> Seq<Seq<char>> {
    tokens_of(lowercase_of(text))
}

proof fn lemma_dedup_nonempty_last<A>(ts: Seq<A>)
    requires
        ts.len() > 0,
    ensures
        dedup(ts).len() > 0,
        dedup(ts).last() == ts.last(),
    decreases ts.len(),
{
    if ts.len() >= 2 && ts[ts.len() - 1] == ts[ts.len() - 2] {
        lemma_dedup_nonempty_last(ts.drop_last());
    }
}

/// The tokens of already lowercased characters.
pub fn tokens_of_lower(s: &Vec<char>) -> (r: Vec<Vec<char>>)
    ensures
        views(r@) == tokens_of(s@),
{
    // Scan.
    let mut out: Vec<Vec<char>> = Vec::new();
    let mut word: Vec<char> = Vec::new();
    let mut prev: Option<char> = None;
    let mut i: usize = 0;
    while i < s.len()
        invariant
            i <= s.len(),
            scan(s@.take(i as int)) == (views(out@), word@, prev),
        decreases s.len() - i,
    {
        let c = s[i];
        let ghost st = scan(s@.take(i as int));
        assert(s@.take(i + 1).drop_last() =~= s@.take(i as int));
        assert(s@.take(i + 1).last() == c);
        if ascii_alnum(c) || c == '-' {
            word.push(c);
            prev = None;
        } else {
            if word.len() > 0 {
                let ghost before = views(out@);
                let w = word;
                out.push(w);
                assert(views(out@) =~= before.push(w@));
            }
            word = Vec::new();
            if cjk(c) {
                match prev {
                    Some(p) => {
                        let mut pair: Vec<char> = Vec::new();
                        pair.push(p);
                        pair.push(c);
                        assert(pair@ =~= seq![p, c]);
                        let ghost before = views(out@);
                        out.push(pair);
                        assert(views(out@) =~= before.push(seq![p, c]));
                    },
                    None => {},
                }
                prev = Some(c);
            } else {
                prev = None;
            }
        }
        i += 1;
        assert(word@ =~= scan(s@.take(i as int)).1);
    }
    assert(s@.take(i as int) =~= s@);
    if word.len() > 0 {
        let ghost before = views(out@);
        let w = word;
        out.push(w);
        assert(views(out@) =~= before.push(w@));
    }
    // Drop short tokens.
    let mut long: Vec<Vec<char>> = Vec::new();
    let mut j: usize = 0;
    while j < out.len()
        invariant
            j <= out.len(),
            views(out@) == raw_tokens(s@),
            views(long@) == long_tokens(views(out@).take(j as int)),
        decreases out.len() - j,
    {
        assert(views(out@).take(j + 1).drop_last() =~= views(out@).take(j as int));
        assert(views(out@)[j as int] == out@[j as int]@);
        if out[j].len() >= 2 {
            let ghost before = views(long@);
            let item = out[j].clone();
            long.push(item);
            assert(views(long@) =~= before.push(out@[j as int]@));
        }
        j += 1;
        assert(views(long@) =~= long_tokens(views(out@).take(j as int)));
    }
    assert(views(out@).take(j as int) =~= views(out@));
    // Collapse adjacent repeats.
    let mut r: Vec<Vec<char>> = Vec::new();
    let mut k: usize = 0;
    while k < long.len()
        invariant
            k <= long.len(),
            views(r@) == dedup(views(long@).take(k as int)),
        decreases long.len() - k,
    {
        let ghost t = views(long@).take(k + 1);
        assert(t[k as int] == long@[k as int]@);
        assert(k > 0 ==> t[k - 1] == long@[k - 1]@);
        assert(t.drop_last() =~= views(long@).take(k as int));
        if k > 0 && vec_eq(&long[k], &long[k - 1]) {
            assert(t[t.len() - 1] == t[t.len() - 2]);
        } else {
            proof {
                if k > 0 {
                    assert(t[t.len() - 1] != t[t.len() - 2]);
                }
            }
            let ghost before = views(r@);
            let item = long[k].clone();
            r.push(item);
            assert(views(r@) =~= before.push(long@[k as int]@));
        }
        k += 1;
        assert(views(r@) =~= dedup(views(long@).take(k as int)));
    }
    assert(views(long@).take(k as int) =~= views(long@));
    r
}

/// Whether two character vectors hold the same characters.
pub fn vec_eq(a: &Vec<char>, b: &Vec<char>) -> (r: bool)
    ensures
        r == (a@ == b@),
{
    if a.len() != b.len() {
        return false;
    }
    let mut i: usize = 0;
    while i < a.len()
        invariant
            a.len() == b.len(),
            i <= a.len(),
            forall|k: int| 0 <= k < i ==> a@[k] == b@[k],
        decreases a.len() - i,
    {
        if a[i] != b[i] {
            return false;
        }
        i += 1;
    }
    assert(a@ =~= b@);
    true
}

} // verus!

verus! {

/// The retrieval tokens of a text: ASCII words and CJK bigrams of its
/// lowercase form, at least two characters each, adjacent repeats once.
pub fn tokens(text: &str) -> (r: Vec<String>)
    ensures
        string_views(r@) == tokens_spec(text@),
{
    let lower = lower_chars(text);
    let t = tokens_of_lower(&lower);
    strings_of(&t)
}

} // verus!

verus! {

/// What `rule_text` writes: both titles and summaries, then every tag, each
/// after a space; the category is added for a Chinese search.
pub open spec fn tag_text(tags: Seq<&'static str>) -> Seq<char>
    decreases tags.len(),
{
    if tags.len() == 0 {
        Seq::empty()
    } else {
        tag_text(tags.drop_last()) + seq![' '] + tags.last()@
    }
}

pub open spec fn rule_text_spec(rule: Rule, zh: bool) -> Seq<char> {
    rule.title_en@ + seq![' '] + rule.summary_en@ + seq![' '] + rule.title_zh@ + seq![' ']
        + rule.summary_zh@ + tag_text(rule.tags@) + if zh {
        seq![' '] + rule.category@
    } else {
        Seq::empty()
    }
}

/// The searchable text of a rule.
pub fn rule_text(rule: &Rule, zh: bool) -> (r: String)
    ensures
        r@ == rule_text_spec(*rule, zh),
{
    let mut text = String::new();
    push_str(&mut text, rule.title_en);
    push_char(&mut text, ' ');
    push_str(&mut text, rule.summary_en);
    push_char(&mut text, ' ');
    push_str(&mut text, rule.title_zh);
    push_char(&mut text, ' ');
    push_str(&mut text, rule.summary_zh);
    let ghost head = text@;
    let mut i: usize = 0;
    while i < rule.tags.len()
        invariant
            i <= rule.tags@.len(),
            text@ == head + tag_text(rule.tags@.take(i as int)),
        decreases rule.tags@.len() - i,
    {
        assert(rule.tags@.take(i + 1).drop_last() =~= rule.tags@.take(i as int));
        push_char(&mut text, ' ');
        push_str(&mut text, rule.tags[i]);
        i += 1;
        assert(text@ =~= head + tag_text(rule.tags@.take(i as int)));
    }
    assert(rule.tags@.take(i as int) =~= rule.tags@);
    if zh {
        push_char(&mut text, ' ');
        push_str(&mut text, rule.category);
    }
    assert(text@ =~= rule_text_spec(*rule, zh));
    text
}

} // verus!

verus! {

// ---------------------------------------------------------------------------
// Retrieval scoring: a query token found in a rule's text adds its weight
// times its occurrences there (at most three); the weight is the pack size
// divided by the number of rules whose text holds the token, so rarer terms
// weigh more.
// ---------------------------------------------------------------------------

/// How many times `t` occurs in `doc`.
pub open spec fn occurrences(doc: Seq<Seq<char>>, t: Seq<char>) -> nat
    decreases doc.len(),
{
    if doc.len() == 0 {
        0
    } else {
        occurrences(doc.drop_last(), t) + if doc.last() == t {
            1nat
        } else {
            0nat
        }
    }
}

/// How many of the documents hold `t`.
pub open spec fn containing(docs: Seq<Seq<Seq<char>>>, t: Seq<char>) -> nat
    decreases docs.len(),
{
    if docs.len() == 0 {
        0
    } else {
        containing(docs.drop_last(), t) + if docs.last().contains(t) {
            1nat
        } else {
            0nat
        }
    }
}

/// What one query token adds to a document's score.
pub open spec fn term_score(docs: Seq<Seq<Seq<char>>>, doc: Seq<Seq<char>>, t: Seq<char>) -> int {
    let occ = occurrences(doc, t) as u32;
    if occ == 0 {
        0
    } else {
        let c = containing(docs, t) as u32;
        let weight = (docs.len() as u32) / (if c == 0 {
            1u32
        } else {
            c
        });
        weight * (if occ < 3 {
            occ
        } else {
            3u32
        })
    }
}

/// A document's score for the query tokens `q`.
pub open spec fn doc_score(docs: Seq<Seq<Seq<char>>>, doc: Seq<Seq<char>>, q: Seq<Seq<char>>) -> int
    decreases q.len(),
{
    if q.len() == 0 {
        0
    } else {
        doc_score(docs, doc, q.drop_last()) + term_score(docs, doc, q.last())
    }
}

/// The query tokens that occur in the document, in query order.
pub open spec fn doc_matched(doc: Seq<Seq<char>>, q: Seq<Seq<char>>) -> Seq<Seq<char>>
    decreases q.len(),
{
    if q.len() == 0 {
        q
    } else if occurrences(doc, q.last()) as u32 != 0 {
        doc_matched(doc, q.drop_last()).push(q.last())
    } else {
        doc_matched(doc, q.drop_last())
    }
}

proof fn lemma_term_bound(docs: Seq<Seq<Seq<char>>>, doc: Seq<Seq<char>>, t: Seq<char>)
    ensures
        0 <= term_score(docs, doc, t) <= (docs.len() as u32) * 3,
{
    let occ = occurrences(doc, t) as u32;
    if occ != 0 {
        let c = containing(docs, t) as u32;
        let d: u32 = if c == 0 {
            1u32
        } else {
            c
        };
        let n = docs.len() as u32;
        let m: u32 = if occ < 3 {
            occ
        } else {
            3u32
        };
        assert(n / d <= n) by (nonlinear_arith)
            requires
                d >= 1,
        ;
        assert((n / d) * m <= n * 3) by (nonlinear_arith)
            requires
                n / d <= n,
                m <= 3,
                n / d >= 0,
        ;
    }
}

/// A document's score over a prefix of the query is at most its score over
/// the whole query: no term lowers it.
proof fn lemma_doc_score_prefix(docs: Seq<Seq<Seq<char>>>, doc: Seq<Seq<char>>, q: Seq<Seq<char>>, j: int)
    requires
        0 <= j <= q.len(),
    ensures
        0 <= doc_score(docs, doc, q.take(j)) <= doc_score(docs, doc, q),
    decreases q.len(),
{
    if j == q.len() {
        assert(q.take(j) =~= q);
        lemma_doc_score_nonneg(docs, doc, q);
    } else {
        lemma_doc_score_prefix(docs, doc, q.drop_last(), j);
        assert(q.drop_last().take(j) =~= q.take(j));
        lemma_term_bound(docs, doc, q.last());
    }
}

proof fn lemma_doc_score_nonneg(docs: Seq<Seq<Seq<char>>>, doc: Seq<Seq<char>>, q: Seq<Seq<char>>)
    ensures
        0 <= doc_score(docs, doc, q),
    decreases q.len(),
{
    if q.len() > 0 {
        lemma_doc_score_nonneg(docs, doc, q.drop_last());
        lemma_term_bound(docs, doc, q.last());
    }
}

/// The nested character sequences of a vector of tokenised documents.
pub open spec fn doc_views(d: Seq<Vec<Vec<char>>>) -> Seq<Seq<Seq<char>>> {
    d.map_values(|x: Vec<Vec<char>>| views(x@))
}

/// How many times `t` occurs in `doc`.
pub fn count_occurrences(doc: &Vec<Vec<char>>, t: &Vec<char>) -> (r: usize)
    ensures
        r == occurrences(views(doc@), t@),
{
    let mut n: usize = 0;
    let mut i: usize = 0;
    while i < doc.len()
        invariant
            i <= doc.len(),
            n == occurrences(views(doc@).take(i as int), t@),
            n <= i,
        decreases doc.len() - i,
    {
        assert(views(doc@).take(i + 1).drop_last() =~= views(doc@).take(i as int));
        if vec_eq(&doc[i], t) {
            n += 1;
        }
        i += 1;
    }
    assert(views(doc@).take(i as int) =~= views(doc@));
    n
}

/// Whether `doc` holds `t`.
pub fn doc_holds(doc: &Vec<Vec<char>>, t: &Vec<char>) -> (r: bool)
    ensures
        r == views(doc@).contains(t@),
{
    let mut i: usize = 0;
    while i < doc.len()
        invariant
            i <= doc.len(),
            forall|k: int| 0 <= k < i ==> views(doc@)[k] != t@,
        decreases doc.len() - i,
    {
        if vec_eq(&doc[i], t) {
            assert(views(doc@)[i as int] == t@);
            return true;
        }
        i += 1;
    }
    false
}

/// How many documents hold `t`.
pub fn count_containing(docs: &Vec<Vec<Vec<char>>>, t: &Vec<char>) -> (r: usize)
    ensures
        r == containing(doc_views(docs@), t@),
{
    let mut n: usize = 0;
    let mut i: usize = 0;
    while i < docs.len()
        invariant
            i <= docs.len(),
            n == containing(doc_views(docs@).take(i as int), t@),
            n <= i,
        decreases docs.len() - i,
    {
        assert(doc_views(docs@).take(i + 1).drop_last() =~= doc_views(docs@).take(i as int));
        if doc_holds(&docs[i], t) {
            n += 1;
        }
        i += 1;
    }
    assert(doc_views(docs@).take(i as int) =~= doc_views(docs@));
    n
}

/// The score of one document and the query tokens it matched.
pub fn score_doc(docs: &Vec<Vec<Vec<char>>>, i: usize, q: &Vec<Vec<char>>) -> (r: (u32, Vec<Vec<char>>))
    requires
        i < docs.len(),
        doc_score(doc_views(docs@), views(docs@[i as int]@), views(q@)) <= u32::MAX,
    ensures
        r.0 == doc_score(doc_views(docs@), views(docs@[i as int]@), views(q@)),
        views(r.1@) == doc_matched(views(docs@[i as int]@), views(q@)),
{
    let ghost dv = doc_views(docs@);
    let ghost doc = views(docs@[i as int]@);
    assert(dv[i as int] == doc);
    let n = docs.len() as u32;
    let mut score: u32 = 0;
    let mut matched: Vec<Vec<char>> = Vec::new();
    let mut j: usize = 0;
    while j < q.len()
        invariant
            i < docs.len(),
            n == docs.len() as u32,
            dv == doc_views(docs@),
            doc == views(docs@[i as int]@),
            doc_score(dv, doc, views(q@)) <= u32::MAX,
            j <= q.len(),
            score == doc_score(dv, doc, views(q@).take(j as int)),
            views(matched@) == doc_matched(doc, views(q@).take(j as int)),
        decreases q.len() - j,
    {
        let ghost qj = views(q@).take(j + 1);
        assert(qj.drop_last() =~= views(q@).take(j as int));
        assert(qj.last() == q@[j as int]@);
        proof {
            lemma_doc_score_prefix(dv, doc, views(q@), j + 1);
            lemma_doc_score_nonneg(dv, doc, views(q@).take(j as int));
            lemma_term_bound(dv, doc, qj.last());
        }
        let occ = count_occurrences(&docs[i], &q[j]) as u32;
        if occ != 0 {
            let containing = count_containing(docs, &q[j]) as u32;
            let weight = n / (if containing == 0 {
                1u32
            } else {
                containing
            });
            let times = if occ < 3 {
                occ
            } else {
                3u32
            };
            assert(score + weight * times == doc_score(dv, doc, qj));
            score = score + weight * times;
            let ghost before = views(matched@);
            let token = q[j].clone();
            matched.push(token);
            assert(views(matched@) =~= before.push(q@[j as int]@));
        }
        j += 1;
    }
    assert(views(q@).take(j as int) =~= views(q@));
    (score, matched)
}

} // verus!

verus! {

/// A rule that surfaced for a query, with the terms that made it surface.
#[derive(Debug, Clone)]
pub struct RuleHit {
    pub rule_id: String,
    pub title: String,
    pub summary: String,
    pub category: String,
    pub basis: String,
    pub source_title: String,
    pub source_url: String,
    pub score: u32,
    pub matched: Vec<String>,
}

/// The tokens of every rule's text, in pack order.
pub open spec fn pack_docs(pack: RulePack, zh: bool) -> Seq<Seq<Seq<char>>> {
    Seq::new(pack.rules@.len(), |i: int| tokens_spec(rule_text_spec(pack.rules@[i], zh)))
}

/// The score of rule `i` for the query tokens `q`.
pub open spec fn rule_score(pack: RulePack, q: Seq<Seq<char>>, zh: bool, i: int) -> int {
    doc_score(pack_docs(pack, zh), pack_docs(pack, zh)[i], q)
}

/// Rule `i` surfaces for the query.
pub open spec fn is_hit(pack: RulePack, q: Seq<Seq<char>>, zh: bool, i: int) -> bool {
    0 <= i < pack.rules@.len() && rule_score(pack, q, zh, i) > 0
}

/// The ranking key: higher score first, then rule id, then pack order.
pub open spec fn key_before(si: int, a: Seq<char>, i: int, sj: int, b: Seq<char>, j: int) -> bool {
    si > sj || (si == sj && (seq_lt(a, b) || (a == b && i < j)))
}

/// Hit `i` ranks above hit `j`.
pub open spec fn ranks_before(pack: RulePack, q: Seq<Seq<char>>, zh: bool, i: int, j: int) -> bool {
    key_before(
        rule_score(pack, q, zh, i),
        pack.rules@[i].id@,
        i,
        rule_score(pack, q, zh, j),
        pack.rules@[j].id@,
        j,
    )
}

/// `order` lists the best `k` hits (or all of them, when there are fewer),
/// best first.
pub open spec fn is_ranking(pack: RulePack, q: Seq<Seq<char>>, zh: bool, k: int, order: Seq<int>) -> bool {
    &&& order.len() <= k
    &&& forall|j: int| 0 <= j < order.len() ==> is_hit(pack, q, zh, #[trigger] order[j])
    &&& forall|a: int, b: int|
        0 <= a < b < order.len() ==> ranks_before(pack, q, zh, #[trigger] order[a], #[trigger] order[b])
    &&& forall|i: int|
        is_hit(pack, q, zh, i) && !order.contains(i) ==> order.len() == k && forall|j: int|
            0 <= j < order.len() ==> ranks_before(pack, q, zh, #[trigger] order[j], i)
}

/// `h` reports rule `rule` with this score and these matched terms, in the
/// requested language.
pub open spec fn hit_describes(h: RuleHit, rule: Rule, zh: bool, score: int, matched: Seq<Seq<char>>) -> bool {
    &&& h.rule_id@ == rule.id@
    &&& h.title@ == (if zh {
        rule.title_zh@
    } else {
        rule.title_en@
    })
    &&& h.summary@ == (if zh {
        rule.summary_zh@
    } else {
        rule.summary_en@
    })
    &&& h.category@ == rule.category@
    &&& h.basis@ == rule.basis@
    &&& h.source_title@ == rule.source.title@
    &&& h.source_url@ == rule.source.url@
    &&& h.score == score
    &&& string_views(h.matched@) == matched
}

/// `r` is what retrieval returns for query tokens `q`: nothing for an empty
/// query; otherwise the ranked hits, each describing its rule.
pub open spec fn retrieval(pack: RulePack, q: Seq<Seq<char>>, k: int, zh: bool, r: Seq<RuleHit>) -> bool {
    &&& q.len() == 0 ==> r.len() == 0
    &&& q.len() > 0 ==> exists|order: Seq<int>|
        {
            &&& is_ranking(pack, q, zh, k, order)
            &&& r.len() == order.len()
            &&& forall|j: int|
                0 <= j < order.len() ==> hit_describes(
                    #[trigger] r[j],
                    pack.rules@[order[j]],
                    zh,
                    rule_score(pack, q, zh, order[j]),
                    doc_matched(pack_docs(pack, zh)[order[j]], q),
                )
        }
}

proof fn lemma_key_total(si: int, a: Seq<char>, i: int, sj: int, b: Seq<char>, j: int)
    requires
        i != j,
    ensures
        key_before(si, a, i, sj, b, j) || key_before(sj, b, j, si, a, i),
{
    lemma_seq_lt_total(a, b);
}

proof fn lemma_key_transitive(
    si: int,
    a: Seq<char>,
    i: int,
    sj: int,
    b: Seq<char>,
    j: int,
    sk: int,
    c: Seq<char>,
    k: int,
)
    requires
        key_before(si, a, i, sj, b, j),
        key_before(sj, b, j, sk, c, k),
    ensures
        key_before(si, a, i, sk, c, k),
{
    if si == sj && sj == sk {
        if seq_lt(a, b) && seq_lt(b, c) {
            lemma_seq_lt_transitive(a, b, c);
        }
    }
}

} // verus!

verus! {

pub open spec fn key_at(scores: Seq<u32>, ids: Seq<Seq<char>>, i: int, j: int) -> bool {
    key_before(scores[i] as int, ids[i], i, scores[j] as int, ids[j], j)
}

/// `order` lists the `k` best positive-score positions (or all of them),
/// best first, under `key_at`.
pub open spec fn ranked(scores: Seq<u32>, ids: Seq<Seq<char>>, k: int, order: Seq<usize>) -> bool {
    &&& order.len() <= k
    &&& forall|j: int| 0 <= j < order.len() ==> (#[trigger] order[j]) < scores.len() && scores[order[j] as int] > 0
    &&& forall|a: int, b: int|
        0 <= a < b < order.len() ==> key_at(scores, ids, #[trigger] order[a] as int, #[trigger] order[b] as int)
    &&& forall|i: int|
        0 <= i < scores.len() && scores[i] > 0 && !order.contains(i as usize) ==> order.len() == k && forall|j: int|
            0 <= j < order.len() ==> key_at(scores, ids, #[trigger] order[j] as int, i)
}

fn key_before_exec(scores: &Vec<u32>, ids: &Vec<Vec<char>>, i: usize, j: usize) -> (r: bool)
    requires
        i < scores.len(),
        j < scores.len(),
        scores.len() == ids.len(),
    ensures
        r == key_at(scores@, views(ids@), i as int, j as int),
{
    let si = scores[i];
    let sj = scores[j];
    if si != sj {
        return si > sj;
    }
    if chars_lt(&ids[i], &ids[j]) {
        return true;
    }
    vec_eq(&ids[i], &ids[j]) && i < j
}

/// The positions of the `k` best positive scores, best first.
pub fn rank(scores: &Vec<u32>, ids: &Vec<Vec<char>>, k: usize) -> (order: Vec<usize>)
    requires
        scores.len() == ids.len(),
    ensures
        ranked(scores@, views(ids@), k as int, order@),
{
    let n = scores.len();
    let ghost sv = scores@;
    let ghost iv = views(ids@);
    let mut taken: Vec<bool> = Vec::new();
    let mut t: usize = 0;
    while t < n
        invariant
            t <= n,
            taken@.len() == t,
            forall|x: int| 0 <= x < t ==> !taken@[x],
        decreases n - t,
    {
        taken.push(false);
        t += 1;
    }
    let mut order: Vec<usize> = Vec::new();
    while order.len() < k
        invariant
            n == scores.len(),
            scores.len() == ids.len(),
            sv == scores@,
            iv == views(ids@),
            taken@.len() == n,
            order@.len() <= k,
            forall|x: int| 0 <= x < n ==> taken@[x] == order@.contains(x as usize),
            forall|j: int| 0 <= j < order@.len() ==> (#[trigger] order@[j]) < n && sv[order@[j] as int] > 0,
            forall|a: int, b: int|
                0 <= a < b < order@.len() ==> key_at(sv, iv, #[trigger] order@[a] as int, #[trigger] order@[b] as int),
            forall|i: int|
                0 <= i < n && sv[i] > 0 && !taken@[i] ==> forall|j: int|
                    0 <= j < order@.len() ==> key_at(sv, iv, #[trigger] order@[j] as int, i),
        ensures
            order@.len() == k || forall|x: int| 0 <= x < n ==> !(sv[x] > 0 && !taken@[x]),
        decreases k - order@.len(),
    {
        // The best position not yet taken.
        let mut best: Option<usize> = None;
        let mut i: usize = 0;
        while i < n
            invariant
                n == scores.len(),
                scores.len() == ids.len(),
                sv == scores@,
                iv == views(ids@),
                taken@.len() == n,
                i <= n,
                best matches Some(b) ==> b < i && sv[b as int] > 0 && !taken@[b as int],
                best is None ==> forall|x: int| 0 <= x < i ==> !(sv[x] > 0 && !taken@[x]),
                best matches Some(b) ==> forall|x: int|
                    0 <= x < i && sv[x] > 0 && !taken@[x] && x != b ==> key_at(sv, iv, b as int, x),
            decreases n - i,
        {
            if scores[i] > 0 && !taken[i] {
                match best {
                    None => {
                        best = Some(i);
                    },
                    Some(b) => {
                        if key_before_exec(scores, ids, i, b) {
                            proof {
                                assert forall|x: int|
                                    0 <= x < i + 1 && sv[x] > 0 && !taken@[x] && x != i implies key_at(
                                    sv,
                                    iv,
                                    i as int,
                                    x,
                                ) by {
                                    if x != b {
                                        lemma_key_transitive(
                                            sv[i as int] as int,
                                            iv[i as int],
                                            i as int,
                                            sv[b as int] as int,
                                            iv[b as int],
                                            b as int,
                                            sv[x] as int,
                                            iv[x],
                                            x,
                                        );
                                    }
                                }
                            }
                            best = Some(i);
                        } else {
                            proof {
                                lemma_key_total(
                                    sv[i as int] as int,
                                    iv[i as int],
                                    i as int,
                                    sv[b as int] as int,
                                    iv[b as int],
                                    b as int,
                                );
                            }
                        }
                    },
                }
            }
            i += 1;
        }
        match best {
            None => {
                break;
            },
            Some(b) => {
                let ghost old_order = order@;
                let ghost old_taken = taken@;
                taken.set(b, true);
                order.push(b);
                proof {
                    assert forall|x: int| 0 <= x < n implies taken@[x] == order@.contains(x as usize) by {
                        if x == b as int {
                            assert(order@[order@.len() - 1] == b);
                        } else {
                            if order@.contains(x as usize) {
                                let w = choose|w: int| 0 <= w < order@.len() && order@[w] == x as usize;
                                assert(w < old_order.len());
                                assert(old_order[w] == x as usize);
                            }
                            if old_order.contains(x as usize) {
                                let w = choose|w: int| 0 <= w < old_order.len() && old_order[w] == x as usize;
                                assert(order@[w] == x as usize);
                            }
                        }
                    }
                    assert forall|a: int, c: int|
                        0 <= a < c < order@.len() implies key_at(sv, iv, #[trigger] order@[a] as int, #[trigger] order@[c] as int) by {
                        if c == order@.len() - 1 {
                            assert(old_order[a] == order@[a]);
                        } else {
                            assert(old_order[a] == order@[a]);
                            assert(old_order[c] == order@[c]);
                        }
                    }
                    assert forall|x: int|
                        0 <= x < n && sv[x] > 0 && !taken@[x] implies forall|j: int|
                            0 <= j < order@.len() ==> key_at(sv, iv, #[trigger] order@[j] as int, x) by {
                        assert(x != b as int);
                        assert(!old_taken[x]);
                        assert forall|j: int| 0 <= j < order@.len() implies key_at(sv, iv, #[trigger] order@[j] as int, x) by {
                            if j < old_order.len() {
                                assert(old_order[j] == order@[j]);
                            }
                        }
                    }
                }
            },
        }
    }
    proof {
        assert forall|i: int|
            0 <= i < scores@.len() && scores@[i] > 0 && !order@.contains(i as usize) implies order@.len() == k as int && forall|j: int|
                0 <= j < order@.len() ==> key_at(scores@, views(ids@), #[trigger] order@[j] as int, i) by {
            assert(!taken@[i]);
        }
    }
    order
}

} // verus!

verus! {

proof fn lemma_ranking(
    pack: RulePack,
    q: Seq<Seq<char>>,
    zh: bool,
    k: int,
    scores: Seq<u32>,
    ids: Seq<Seq<char>>,
    order: Seq<usize>,
)
    requires
        scores.len() == pack.rules@.len(),
        pack.rules@.len() <= usize::MAX,
        ids.len() == pack.rules@.len(),
        forall|i: int| 0 <= i < scores.len() ==> scores[i] == rule_score(pack, q, zh, i),
        forall|i: int| 0 <= i < ids.len() ==> ids[i] == pack.rules@[i].id@,
        ranked(scores, ids, k, order),
    ensures
        is_ranking(pack, q, zh, k, order.map_values(|x: usize| x as int)),
{
    let ord = order.map_values(|x: usize| x as int);
    assert forall|j: int| 0 <= j < ord.len() implies is_hit(pack, q, zh, #[trigger] ord[j]) by {
        assert(order[j] < scores.len());
    }
    assert forall|a: int, b: int| 0 <= a < b < ord.len() implies ranks_before(pack, q, zh, #[trigger] ord[a], #[trigger] ord[b]) by {
        assert(key_at(scores, ids, order[a] as int, order[b] as int));
    }
    assert forall|i: int| is_hit(pack, q, zh, i) && !ord.contains(i) implies ord.len() == k && forall|j: int|
        0 <= j < ord.len() ==> ranks_before(pack, q, zh, #[trigger] ord[j], i) by {
        assert(0 <= i < scores.len());
        if order.contains(i as usize) {
            let w = choose|w: int| 0 <= w < order.len() && order[w] == i as usize;
            assert(ord[w] == i);
        }
        assert(scores[i] > 0);
        assert forall|j: int| 0 <= j < ord.len() implies ranks_before(pack, q, zh, #[trigger] ord[j], i) by {
            assert(key_at(scores, ids, order[j] as int, i));
            assert(order[j] < scores.len());
        }
    }
}

/// Every rule of the pack scores within `u32` for the query, the integer
/// scores are kept in.
pub open spec fn scores_fit_u32(pack: RulePack, q: Seq<Seq<char>>, zh: bool) -> bool {
    forall|x: int| 0 <= x < pack.rules@.len() ==> #[trigger] rule_score(pack, q, zh, x) <= u32::MAX
}

/// The tokens of every rule's text, in pack order.
fn pack_token_docs(pack: &RulePack, zh: bool) -> (docs: Vec<Vec<Vec<char>>>)
    ensures
        doc_views(docs@) == pack_docs(*pack, zh),
{
    let n = pack.rules.len();
    let ghost pd = pack_docs(*pack, zh);
    let mut docs: Vec<Vec<Vec<char>>> = Vec::new();
    let mut i: usize = 0;
    while i < n
        invariant
            n == pack.rules@.len(),
            pd == pack_docs(*pack, zh),
            i <= n,
            doc_views(docs@) == pd.take(i as int),
        decreases n - i,
    {
        let text = rule_text(&pack.rules[i], zh);
        let lower_text = lower_chars(text.as_str());
        let d = tokens_of_lower(&lower_text);
        let ghost before = doc_views(docs@);
        docs.push(d);
        assert(doc_views(docs@) =~= before.push(pd[i as int]));
        i += 1;
        assert(pd.take(i as int) =~= pd.take(i - 1).push(pd[i - 1]));
    }
    assert(pd.take(n as int) =~= pd);
    docs
}

/// Whether document `i` scores within `u32` for the query. The sum is
/// kept in `u64` and the walk stops once it passes `u32::MAX`.
fn doc_score_fits(docs: &Vec<Vec<Vec<char>>>, i: usize, q: &Vec<Vec<char>>) -> (r: bool)
    requires
        i < docs.len(),
    ensures
        r == (doc_score(doc_views(docs@), views(docs@[i as int]@), views(q@)) <= u32::MAX),
{
    let ghost dv = doc_views(docs@);
    let ghost doc = views(docs@[i as int]@);
    assert(dv[i as int] == doc);
    let n = docs.len() as u32;
    let mut score: u64 = 0;
    let mut j: usize = 0;
    while j < q.len()
        invariant
            i < docs.len(),
            n == docs.len() as u32,
            dv == doc_views(docs@),
            doc == views(docs@[i as int]@),
            j <= q.len(),
            score == doc_score(dv, doc, views(q@).take(j as int)),
            score <= u32::MAX,
        decreases q.len() - j,
    {
        let ghost qj = views(q@).take(j + 1);
        assert(qj.drop_last() =~= views(q@).take(j as int));
        assert(qj.last() == q@[j as int]@);
        proof {
            lemma_term_bound(dv, doc, qj.last());
        }
        let occ = count_occurrences(&docs[i], &q[j]) as u32;
        if occ != 0 {
            let containing = count_containing(docs, &q[j]) as u32;
            let weight = n / (if containing == 0 {
                1u32
            } else {
                containing
            });
            let times = if occ < 3 {
                occ
            } else {
                3u32
            };
            assert(weight as u64 * times as u64 <= u32::MAX as u64 * 3) by (nonlinear_arith)
                requires
                    weight <= u32::MAX,
                    times <= 3,
            ;
            assert(score + weight * times == doc_score(dv, doc, qj));
            score = score + weight as u64 * times as u64;
        }
        j += 1;
        if score > 0xffff_ffff {
            proof {
                lemma_doc_score_prefix(dv, doc, views(q@), j as int);
            }
            return false;
        }
    }
    assert(views(q@).take(j as int) =~= views(q@));
    true
}

/// Whether every rule of `pack` scores within `u32` for `query`.
pub fn scores_fit(pack: &RulePack, query: &str, zh: bool) -> (r: bool)
    ensures
        r == scores_fit_u32(*pack, tokens_spec(query@), zh),
{
    let ghost qs = tokens_spec(query@);
    let lower = lower_chars(query);
    let q = tokens_of_lower(&lower);
    assert(views(q@) == qs);
    let docs = pack_token_docs(pack, zh);
    let ghost pd = pack_docs(*pack, zh);
    let n = pack.rules.len();
    assert(docs@.len() == doc_views(docs@).len());
    let mut i: usize = 0;
    while i < n
        invariant
            n == pack.rules@.len(),
            n == docs@.len(),
            pd == pack_docs(*pack, zh),
            doc_views(docs@) == pd,
            views(q@) == qs,
            qs == tokens_spec(query@),
            i <= n,
            forall|x: int| 0 <= x < i ==> #[trigger] rule_score(*pack, qs, zh, x) <= u32::MAX,
        decreases n - i,
    {
        assert(views(docs@[i as int]@) == pd[i as int]);
        if !doc_score_fits(&docs, i, &q) {
            assert(!(rule_score(*pack, qs, zh, i as int) <= u32::MAX));
            assert(!scores_fit_u32(*pack, qs, zh));
            return false;
        }
        i += 1;
    }
    true
}

/// Top-`k` rules of `pack` for `query`, best first, each with the query
/// terms that matched it. An empty query gives an empty result, never "all".
/// Scores are `u32`, and every rule's score must fit one.
pub fn retrieve(pack: &RulePack, query: &str, k: usize, zh: bool) -> (r: Vec<RuleHit>)
    requires
        scores_fit_u32(*pack, tokens_spec(query@), zh),
    ensures
        retrieval(*pack, tokens_spec(query@), k as int, zh, r@),
{
    let ghost qs = tokens_spec(query@);
    let lower = lower_chars(query);
    let q = tokens_of_lower(&lower);
    assert(views(q@) == qs);
    if q.len() == 0 {
        return Vec::new();
    }
    let n = pack.rules.len();
    let ghost pd = pack_docs(*pack, zh);
    let docs = pack_token_docs(pack, zh);
    assert(docs@.len() == doc_views(docs@).len());
    let mut scores: Vec<u32> = Vec::new();
    let mut found: Vec<Vec<Vec<char>>> = Vec::new();
    let mut ids: Vec<Vec<char>> = Vec::new();
    let mut i: usize = 0;
    while i < n
        invariant
            n == pack.rules@.len(),
            n == docs@.len(),
            pd == pack_docs(*pack, zh),
            doc_views(docs@) == pd,
            views(q@) == qs,
            scores_fit_u32(*pack, qs, zh),
            i <= n,
            scores@.len() == i,
            found@.len() == i,
            ids@.len() == i,
            forall|x: int| 0 <= x < i ==> scores@[x] == rule_score(*pack, qs, zh, x),
            forall|x: int| 0 <= x < i ==> views(found@[x]@) == doc_matched(pd[x], qs),
            forall|x: int| 0 <= x < i ==> ids@[x]@ == pack.rules@[x].id@,
        decreases n - i,
    {
        assert(views(docs@[i as int]@) == pd[i as int]);
        assert(rule_score(*pack, qs, zh, i as int) <= u32::MAX);
        let (s, m) = score_doc(&docs, i, &q);
        scores.push(s);
        found.push(m);
        ids.push(chars_of(pack.rules[i].id));
        i += 1;
    }
    let order = rank(&scores, &ids, k);
    proof {
        assert(views(ids@) =~= ids@.map_values(|x: Vec<char>| x@));
        lemma_ranking(*pack, qs, zh, k as int, scores@, views(ids@), order@);
    }
    let ghost ord = order@.map_values(|x: usize| x as int);
    let mut hits: Vec<RuleHit> = Vec::new();
    let mut j: usize = 0;
    while j < order.len()
        invariant
            n == pack.rules@.len(),
            scores@.len() == n,
            found@.len() == n,
            ord == order@.map_values(|x: usize| x as int),
            ranked(scores@, views(ids@), k as int, order@),
            forall|x: int| 0 <= x < n ==> scores@[x] == rule_score(*pack, qs, zh, x),
            forall|x: int| 0 <= x < n ==> views(found@[x]@) == doc_matched(pd[x], qs),
            pd == pack_docs(*pack, zh),
            j <= order.len(),
            hits@.len() == j,
            forall|x: int|
                0 <= x < j ==> hit_describes(
                    #[trigger] hits@[x],
                    pack.rules@[ord[x]],
                    zh,
                    rule_score(*pack, qs, zh, ord[x]),
                    doc_matched(pd[ord[x]], qs),
                ),
        decreases order.len() - j,
    {
        let o = order[j];
        assert(o < n);
        let rule = &pack.rules[o];
        let hit = RuleHit {
            rule_id: owned(rule.id),
            title: if zh {
                owned(rule.title_zh)
            } else {
                owned(rule.title_en)
            },
            summary: if zh {
                owned(rule.summary_zh)
            } else {
                owned(rule.summary_en)
            },
            category: owned(rule.category),
            basis: owned(rule.basis),
            source_title: owned(rule.source.title),
            source_url: owned(rule.source.url),
            score: scores[o],
            matched: strings_of(&found[o]),
        };
        hits.push(hit);
        j += 1;
    }
    hits
}

} // verus!

verus! {

#[derive(Debug, Clone, Copy, PartialEq, Eq, Structural)]
pub enum FindingStatus {
    /// The recorded facts satisfy the rule as this pack states it.
    Pass,
    /// Action is likely needed; the facts point at an obligation.
    Attention,
    /// The check cannot decide; a person (often a professional) must.
    NeedsReview,
    NotApplicable,
    /// A required fact is missing, so nothing can be said.
    Unknown,
}

#[derive(Debug, Clone)]
pub struct ComplianceFinding {
    pub rule_id: String,
    pub category: String,
    pub basis: String,
    pub title: String,
    pub status: FindingStatus,
    pub detail: String,
    /// Field paths the check read (never values).
    pub facts_used: Vec<String>,
    pub source_authority: String,
    pub source_title: String,
    pub source_url: String,
    pub escalation: String,
}

/// `f` is the finding of `rule` with this status, detail, and facts.
pub open spec fn finding_of(
    f: ComplianceFinding,
    rule: Rule,
    status: FindingStatus,
    detail: Seq<char>,
    facts: Seq<Seq<char>>,
    zh: bool,
) -> bool {
    &&& f.rule_id@ == rule.id@
    &&& f.category@ == rule.category@
    &&& f.basis@ == rule.basis@
    &&& f.title@ == (if zh {
        rule.title_zh@
    } else {
        rule.title_en@
    })
    &&& f.status == status
    &&& f.detail@ == detail
    &&& string_views(f.facts_used@) == facts
    &&& f.source_authority@ == rule.source.authority@
    &&& f.source_title@ == rule.source.title@
    &&& f.source_url@ == rule.source.url@
    &&& f.escalation@ == (if zh {
        rule.escalation_zh@
    } else {
        rule.escalation_en@
    })
}

pub open spec fn str_views(v: Seq<&str>) -> Seq<Seq<char>> {
    v.map_values(|s: &str| s@)
}

/// Owned copies of string slices.
pub fn owned_all(v: &[&str]) -> (r: Vec<String>)
    ensures
        string_views(r@) == str_views(v@),
{
    let mut r: Vec<String> = Vec::new();
    let mut i: usize = 0;
    while i < v.len()
        invariant
            i <= v@.len(),
            string_views(r@) == str_views(v@).take(i as int),
        decreases v@.len() - i,
    {
        let ghost before = r@;
        r.push(owned(v[i]));
        assert(string_views(r@) =~= string_views(before).push(v@[i as int]@));
        assert(str_views(v@).take(i + 1) =~= str_views(v@).take(i as int).push(v@[i as int]@));
        i += 1;
    }
    assert(str_views(v@).take(i as int) =~= str_views(v@));
    r
}

/// A finding for `rule`, in the requested language.
pub fn finding(rule: &Rule, status: FindingStatus, detail: String, facts_used: &[&str], zh: bool) -> (f: ComplianceFinding)
    ensures
        finding_of(f, *rule, status, detail@, str_views(facts_used@), zh),
{
    ComplianceFinding {
        rule_id: owned(rule.id),
        category: owned(rule.category),
        basis: owned(rule.basis),
        title: if zh {
            owned(rule.title_zh)
        } else {
            owned(rule.title_en)
        },
        status,
        detail,
        facts_used: owned_all(facts_used),
        source_authority: owned(rule.source.authority),
        source_title: owned(rule.source.title),
        source_url: owned(rule.source.url),
        escalation: if zh {
            owned(rule.escalation_zh)
        } else {
            owned(rule.escalation_en)
        },
    }
}

/// `CUR 1234.56`: the currency, whole units, and two-digit cents.
pub open spec fn money_spec(cents: u64, currency: Seq<char>) -> Seq<char> {
    currency + seq![' '] + decimal((cents / 100) as nat) + seq!['.'] + two_digits((cents % 100) as nat)
}

pub fn money(cents: u64, currency: &str) -> (r: String)
    ensures
        r@ == money_spec(cents, currency@),
{
    let mut v: Vec<char> = Vec::new();
    push_all(&mut v, currency);
    v.push(' ');
    push_decimal(&mut v, cents / 100);
    v.push('.');
    push_two_digits(&mut v, cents % 100);
    string_of(&v)
}

/// The overall label of a report's findings: `attention` when any finding
/// needs action, else `needs_review`, else `unknown`, else
/// `clear_within_pack`. Never "compliant".
pub open spec fn overall_spec(s: Seq<ComplianceFinding>) -> Seq<char> {
    if exists|i: int| 0 <= i < s.len() && (#[trigger] s[i]).status == FindingStatus::Attention {
        "attention"@
    } else if exists|i: int| 0 <= i < s.len() && (#[trigger] s[i]).status == FindingStatus::NeedsReview {
        "needs_review"@
    } else if exists|i: int| 0 <= i < s.len() && (#[trigger] s[i]).status == FindingStatus::Unknown {
        "unknown"@
    } else {
        "clear_within_pack"@
    }
}

fn any_status(findings: &Vec<ComplianceFinding>, status: FindingStatus) -> (r: bool)
    ensures
        r == exists|i: int| 0 <= i < findings@.len() && (#[trigger] findings@[i]).status == status,
{
    let mut i: usize = 0;
    while i < findings.len()
        invariant
            i <= findings@.len(),
            forall|k: int| 0 <= k < i ==> (#[trigger] findings@[k]).status != status,
        decreases findings@.len() - i,
    {
        if findings[i].status == status {
            return true;
        }
        i += 1;
    }
    false
}

pub fn overall(findings: &Vec<ComplianceFinding>) -> (r: &'static str)
    ensures
        r@ == overall_spec(findings@),
{
    if any_status(findings, FindingStatus::Attention) {
        "attention"
    } else if any_status(findings, FindingStatus::NeedsReview) {
        "needs_review"
    } else if any_status(findings, FindingStatus::Unknown) {
        "unknown"
    } else {
        "clear_within_pack"
    }
}

pub const DAY_SECONDS: i64 = 86_400;

/// The money received in the twelve months (365 days) up to `now`.
pub open spec fn receipts_since(payments: Seq<Payment>, since: int) -> int
    decreases payments.len(),
{
    if payments.len() == 0 {
        0
    } else {
        receipts_since(payments.drop_last(), since) + if payments.last().received_at >= since {
            payments.last().amount_cents as int
        } else {
            0
        }
    }
}

proof fn lemma_receipts_monotone(payments: Seq<Payment>, since: int, k: int)
    requires
        0 <= k <= payments.len(),
    ensures
        0 <= receipts_since(payments.take(k), since) <= receipts_since(payments, since),
    decreases payments.len() - k,
{
    if k < payments.len() {
        lemma_receipts_monotone(payments, since, k + 1);
        assert(payments.take(k + 1).drop_last() =~= payments.take(k));
    } else {
        assert(payments.take(k) =~= payments);
    }
    lemma_receipts_nonneg(payments.take(k), since);
}

proof fn lemma_receipts_nonneg(payments: Seq<Payment>, since: int)
    ensures
        receipts_since(payments, since) >= 0,
    decreases payments.len(),
{
    if payments.len() > 0 {
        lemma_receipts_nonneg(payments.drop_last(), since);
    }
}

pub fn trailing_receipts_cents(payments: &Vec<Payment>, now_unix: i64) -> (r: u64)
    requires
        now_unix >= i64::MIN + 365 * DAY_SECONDS,
        receipts_since(payments@, now_unix - 365 * DAY_SECONDS) <= u64::MAX,
    ensures
        r == receipts_since(payments@, now_unix - 365 * DAY_SECONDS),
{
    let since = now_unix - 365 * DAY_SECONDS;
    let mut total: u64 = 0;
    let mut i: usize = 0;
    while i < payments.len()
        invariant
            since == now_unix - 365 * DAY_SECONDS,
            receipts_since(payments@, since as int) <= u64::MAX,
            i <= payments@.len(),
            total == receipts_since(payments@.take(i as int), since as int),
        decreases payments@.len() - i,
    {
        assert(payments@.take(i + 1).drop_last() =~= payments@.take(i as int));
        proof {
            lemma_receipts_monotone(payments@, since as int, i + 1);
        }
        if payments[i].received_at >= since {
            total = total + payments[i].amount_cents;
        }
        i += 1;
    }
    assert(payments@.take(i as int) =~= payments@);
    total
}

} // verus!

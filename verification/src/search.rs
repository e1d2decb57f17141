//! Keyword search over a workspace's chunks: the query is split into
//! lower-cased terms, each chunk is scored by how many terms its lower-cased
//! text contains, and the best-scoring chunks come first.
use vstd::prelude::*;

use crate::db::{
    params_view, SqlParamView,
    decode_all, decoded_from_rows, int_at, is_storage_error, read_int, read_text, row_error,
    row_error_message, text_at, SqlParam, SqlValue, SqliteConnection,
};
use crate::error::AppError;
use crate::ids::{ChunkId, DocumentId, WorkspaceId};
use crate::records::views;
use crate::text::{chars_of, is_whitespace, is_ws, lowercase_of, string_from_chars, to_lowercase};

verus! {

// ---------------------------------------------------------------------
// Terms
// ---------------------------------------------------------------------

/// The whitespace-separated words of `s`, in order (`str::split_whitespace`).
pub open spec fn words(s: Seq<char>) -> Seq<Seq<char>>
    decreases s.len(),
{
    if s.len() == 0 {
        Seq::empty()
    } else {
        let w = words(s.drop_last());
        let c = s.last();
        if is_ws(c) {
            w
        } else if s.len() >= 2 && !is_ws(s[s.len() - 2]) {
            w.update(w.len() - 1, w.last().push(c))
        } else {
            w.push(seq![c])
        }
    }
}

proof fn lemma_words_nonempty_after_word_char(s: Seq<char>)
    requires
        s.len() > 0,
        !is_ws(s.last()),
    ensures
        words(s).len() > 0,
    decreases s.len(),
{
    if s.len() >= 2 && !is_ws(s[s.len() - 2]) {
        assert(s.drop_last().last() == s[s.len() - 2]);
        lemma_words_nonempty_after_word_char(s.drop_last());
    }
}

/// Splits `s` at whitespace, dropping empty pieces.
pub fn split_words(s: &str) -> (r: Vec<Vec<char>>)
    ensures
        views(r@) == words(s@),
{
    let cs = chars_of(s);
    let mut out: Vec<Vec<char>> = Vec::new();
    let mut i: usize = 0;
    assert(cs@.take(0) =~= Seq::<char>::empty());
    assert(views(out@) =~= Seq::<Seq<char>>::empty());
    while i < cs.len()
        invariant
            i <= cs.len(),
            cs@ == s@,
            views(out@) == words(cs@.take(i as int)),
        decreases cs.len() - i,
    {
        let c = cs[i];
        let ghost pre = cs@.take(i as int);
        let ghost cur = cs@.take(i + 1);
        assert(cur.drop_last() =~= pre);
        assert(cur.last() == c);
        if is_whitespace(c) {
        } else if i >= 1 && !is_whitespace(cs[i - 1]) {
            proof {
                assert(pre.last() == cs@[i - 1]);
                lemma_words_nonempty_after_word_char(pre);
                assert(cur[cur.len() - 2] == cs@[i - 1]);
            }
            let ghost before = views(out@);
            let mut last = out.pop().unwrap();
            last.push(c);
            out.push(last);
            assert(views(out@) =~= before.update(before.len() - 1, before.last().push(c)));
        } else {
            let ghost before = views(out@);
            let mut w: Vec<char> = Vec::new();
            w.push(c);
            out.push(w);
            proof {
                if i >= 1 {
                    assert(cur[cur.len() - 2] == cs@[i - 1]);
                }
                assert(views(out@) =~= before.push(seq![c]));
            }
        }
        i = i + 1;
    }
    assert(cs@.take(cs.len() as int) =~= cs@);
    out
}

/// The lower-cased words, leaving out any that lower-case to nothing.
pub open spec fn lowered(ws: Seq<Seq<char>>) -> Seq<Seq<char>>
    decreases ws.len(),
{
    if ws.len() == 0 {
        Seq::empty()
    } else {
        let t = lowered(ws.drop_last());
        let l = lowercase_of(ws.last());
        if l.len() == 0 {
            t
        } else {
            t.push(l)
        }
    }
}

/// The search terms of a query: its words, lower-cased.
pub open spec fn query_terms(query: Seq<char>) -> Seq<Seq<char>> {
    lowered(words(query))
}

/// The search terms of `query`.
pub fn search_terms(query: &str) -> (r: Vec<String>)
    ensures
        views(r@) == query_terms(query@),
{
    let ws = split_words(query);
    let mut out: Vec<String> = Vec::new();
    let mut i: usize = 0;
    let ghost wv = views(ws@);
    assert(wv.take(0) =~= Seq::<Seq<char>>::empty());
    assert(views(out@) =~= Seq::<Seq<char>>::empty());
    while i < ws.len()
        invariant
            i <= ws.len(),
            wv == views(ws@),
            wv == words(query@),
            views(out@) == lowered(wv.take(i as int)),
        decreases ws.len() - i,
    {
        assert(wv.take(i + 1).drop_last() =~= wv.take(i as int));
        assert(wv.take(i + 1).last() == ws@[i as int]@);
        let word = string_from_chars(ws[i].as_slice());
        let l = to_lowercase(word.as_str());
        if !l.as_str().is_empty() {
            let ghost before = views(out@);
            out.push(l);
            assert(views(out@) =~= before.push(lowercase_of(ws@[i as int]@)));
        }
        i = i + 1;
    }
    assert(wv.take(ws.len() as int) =~= wv);
    out
}

// ---------------------------------------------------------------------
// Matching
// ---------------------------------------------------------------------

/// `needle` occurs in `hay` starting at `i`.
pub open spec fn occurs_at(hay: Seq<char>, needle: Seq<char>, i: int) -> bool {
    0 <= i && i + needle.len() <= hay.len() && hay.subrange(i, i + needle.len()) == needle
}

/// `needle` occurs somewhere in `hay` (`str::contains`).
pub open spec fn contains_text(hay: Seq<char>, needle: Seq<char>) -> bool {
    exists|i: int| #[trigger] occurs_at(hay, needle, i)
}

fn matches_at(hay: &Vec<char>, needle: &Vec<char>, i: usize) -> (r: bool)
    requires
        i + needle.len() <= hay.len(),
    ensures
        r == occurs_at(hay@, needle@, i as int),
{
    let mut j: usize = 0;
    while j < needle.len()
        invariant
            j <= needle.len(),
            i + needle.len() <= hay.len(),
            forall|k: int| 0 <= k < j ==> hay@[i + k] == needle@[k],
        decreases needle.len() - j,
    {
        if hay[i + j] != needle[j] {
            assert(hay@.subrange(i as int, i + needle.len())[j as int] == hay@[i + j]);
            return false;
        }
        j = j + 1;
    }
    assert(hay@.subrange(i as int, i + needle.len()) =~= needle@);
    true
}

/// Whether `needle` occurs in `hay`.
pub fn contains_chars(hay: &Vec<char>, needle: &Vec<char>) -> (r: bool)
    ensures
        r == contains_text(hay@, needle@),
{
    if needle.len() > hay.len() {
        assert forall|i: int| !#[trigger] occurs_at(hay@, needle@, i) by {}
        return false;
    }
    let last = hay.len() - needle.len();
    let mut i: usize = 0;
    loop
        invariant
            last == hay.len() - needle.len(),
            needle.len() <= hay.len(),
            i <= last,
            forall|k: int| 0 <= k < i ==> !#[trigger] occurs_at(hay@, needle@, k),
        ensures
            forall|k: int| 0 <= k <= last ==> !#[trigger] occurs_at(hay@, needle@, k),
        decreases last - i,
    {
        if matches_at(hay, needle, i) {
            return true;
        }
        if i == last {
            break;
        }
        i = i + 1;
    }
    assert forall|k: int| !#[trigger] occurs_at(hay@, needle@, k) by {
        if 0 <= k && k <= last {
        }
    }
    false
}

/// How many of `terms` occur in `text`.
pub open spec fn matched_count(text: Seq<char>, terms: Seq<Seq<char>>) -> nat
    decreases terms.len(),
{
    if terms.len() == 0 {
        0
    } else {
        matched_count(text, terms.drop_last()) + if contains_text(text, terms.last()) {
            1nat
        } else {
            0nat
        }
    }
}

proof fn lemma_matched_count_bounded(text: Seq<char>, terms: Seq<Seq<char>>)
    ensures
        matched_count(text, terms) <= terms.len(),
    decreases terms.len(),
{
    if terms.len() > 0 {
        lemma_matched_count_bounded(text, terms.drop_last());
    }
}

/// How many of `terms` occur in `text`.
pub fn count_matches(text: &Vec<char>, terms: &Vec<Vec<char>>) -> (r: u64)
    requires
        terms.len() <= u64::MAX,
    ensures
        r == matched_count(text@, views(terms@)),
{
    let ghost tv = views(terms@);
    let mut n: u64 = 0;
    let mut i: usize = 0;
    assert(tv.take(0) =~= Seq::<Seq<char>>::empty());
    while i < terms.len()
        invariant
            i <= terms.len(),
            terms.len() <= u64::MAX,
            tv == views(terms@),
            n == matched_count(text@, tv.take(i as int)),
        decreases terms.len() - i,
    {
        proof {
            assert(tv.take(i + 1).drop_last() =~= tv.take(i as int));
            assert(tv.take(i + 1).last() == terms@[i as int]@);
            lemma_matched_count_bounded(text@, tv.take(i as int));
        }
        if contains_chars(text, &terms[i]) {
            n = n + 1;
        }
        i = i + 1;
    }
    assert(tv.take(terms.len() as int) =~= tv);
    n
}

// ---------------------------------------------------------------------
// Scoring and ranking
// ---------------------------------------------------------------------

/// One chunk of a workspace as the search reads it.
pub struct KeywordRow {
    pub chunk_id: ChunkId,
    pub document_id: DocumentId,
    pub text_content: String,
    pub page_or_location_ref: String,
}

pub struct KeywordRowView {
    pub chunk_id: ChunkId,
    pub document_id: DocumentId,
    pub text_content: Seq<char>,
    pub page_or_location_ref: Seq<char>,
}

impl View for KeywordRow {
    type V = KeywordRowView;

    open spec fn view(&self) -> KeywordRowView {
        KeywordRowView {
            chunk_id: self.chunk_id,
            document_id: self.document_id,
            text_content: self.text_content@,
            page_or_location_ref: self.page_or_location_ref@,
        }
    }
}

/// A chunk that matched a keyword query. Its score is
/// `matched_terms / term_count`: the share of the query's terms that the
/// chunk's text contains, ignoring case.
pub struct SearchHit {
    pub chunk_id: ChunkId,
    pub document_id: DocumentId,
    pub text_content: String,
    pub page_or_location_ref: String,
    pub matched_terms: u64,
    pub term_count: u64,
}

pub struct SearchHitView {
    pub chunk_id: ChunkId,
    pub document_id: DocumentId,
    pub text_content: Seq<char>,
    pub page_or_location_ref: Seq<char>,
    pub matched_terms: u64,
    pub term_count: u64,
}

impl View for SearchHit {
    type V = SearchHitView;

    open spec fn view(&self) -> SearchHitView {
        SearchHitView {
            chunk_id: self.chunk_id,
            document_id: self.document_id,
            text_content: self.text_content@,
            page_or_location_ref: self.page_or_location_ref@,
            matched_terms: self.matched_terms,
            term_count: self.term_count,
        }
    }
}

/// The hit a row makes for `terms`: none when its lower-cased text
/// contains none of them.
pub open spec fn hit_of(row: KeywordRowView, terms: Seq<Seq<char>>) -> Option<SearchHitView> {
    let m = matched_count(lowercase_of(row.text_content), terms);
    if m == 0 {
        None
    } else {
        Some(
            SearchHitView {
                chunk_id: row.chunk_id,
                document_id: row.document_id,
                text_content: row.text_content,
                page_or_location_ref: row.page_or_location_ref,
                matched_terms: m as u64,
                term_count: terms.len() as u64,
            },
        )
    }
}

/// The hits of `rows`, in row order.
pub open spec fn hits_of(rows: Seq<KeywordRowView>, terms: Seq<Seq<char>>) -> Seq<SearchHitView>
    decreases rows.len(),
{
    if rows.len() == 0 {
        Seq::empty()
    } else {
        let h = hits_of(rows.drop_last(), terms);
        match hit_of(rows.last(), terms) {
            Some(x) => h.push(x),
            None => h,
        }
    }
}

/// Where a hit with `m` matched terms goes in `s`: after every leading hit
/// that matched at least as many.
pub open spec fn insert_pos(s: Seq<SearchHitView>, m: u64) -> nat
    decreases s.len(),
{
    if s.len() == 0 {
        0
    } else if s[0].matched_terms < m {
        0
    } else {
        1 + insert_pos(s.drop_first(), m)
    }
}

/// `s` ordered by matched terms, most first; hits that matched equally
/// keep their order in `s`.
pub open spec fn ranked(s: Seq<SearchHitView>) -> Seq<SearchHitView>
    decreases s.len(),
{
    if s.len() == 0 {
        Seq::empty()
    } else {
        let r = ranked(s.drop_last());
        r.insert(insert_pos(r, s.last().matched_terms) as int, s.last())
    }
}

/// The first `limit` hits of `s` (all of them when there are fewer).
pub open spec fn top(s: Seq<SearchHitView>, limit: usize) -> Seq<SearchHitView> {
    if limit < s.len() {
        s.take(limit as int)
    } else {
        s
    }
}

/// Hits are ordered by matched terms, most first.
pub open spec fn best_first(s: Seq<SearchHitView>) -> bool {
    forall|i: int, j: int| 0 <= i < j < s.len() ==> #[trigger] s[i].matched_terms >= #[trigger] s[j].matched_terms
}

proof fn lemma_insert_pos_bounded(s: Seq<SearchHitView>, m: u64)
    ensures
        insert_pos(s, m) <= s.len(),
        forall|k: int| 0 <= k < insert_pos(s, m) ==> #[trigger] s[k].matched_terms >= m,
        insert_pos(s, m) < s.len() ==> s[insert_pos(s, m) as int].matched_terms < m,
    decreases s.len(),
{
    if s.len() > 0 && s[0].matched_terms >= m {
        lemma_insert_pos_bounded(s.drop_first(), m);
        assert forall|k: int| 0 <= k < insert_pos(s, m) implies #[trigger] s[k].matched_terms >= m by {
            if k > 0 {
                assert(s[k] == s.drop_first()[k - 1]);
            }
        }
    }
}

proof fn lemma_insert_pos_skip(s: Seq<SearchHitView>, m: u64, p: int)
    requires
        0 <= p < s.len(),
        insert_pos(s, m) == p + insert_pos(s.skip(p), m),
        s[p].matched_terms >= m,
    ensures
        insert_pos(s, m) == p + 1 + insert_pos(s.skip(p + 1), m),
{
    assert(s.skip(p)[0] == s[p]);
    assert(s.skip(p).drop_first() =~= s.skip(p + 1));
}

/// Ranking keeps every hit and puts the best first: the ranked hits are a
/// reordering of the hits, and no hit comes after one that matched fewer
/// terms.
pub proof fn law_ranking_is_best_first(s: Seq<SearchHitView>)
    ensures
        best_first(ranked(s)),
        ranked(s).to_multiset() == s.to_multiset(),
    decreases s.len(),
{
    if s.len() == 0 {
        assert(ranked(s) =~= s);
    } else {
        law_ranking_is_best_first(s.drop_last());
        let r = ranked(s.drop_last());
        let x = s.last();
        let p = insert_pos(r, x.matched_terms);
        lemma_insert_pos_bounded(r, x.matched_terms);
        let out = r.insert(p as int, x);
        assert forall|i: int, j: int| 0 <= i < j < out.len() implies #[trigger] out[i].matched_terms
            >= #[trigger] out[j].matched_terms by {
            if i < p && j < p {
                assert(out[i] == r[i] && out[j] == r[j]);
            } else if i < p && j == p {
                assert(out[i] == r[i]);
            } else if i < p {
                assert(out[i] == r[i] && out[j] == r[j - 1]);
            } else if i == p {
                assert(out[j] == r[j - 1]);
                if p < r.len() {
                    assert(r[p as int].matched_terms >= r[j - 1].matched_terms);
                }
            } else {
                assert(out[i] == r[i - 1] && out[j] == r[j - 1]);
            }
        }
        vstd::seq_lib::to_multiset_insert(r, p as int, x);
        assert(s.drop_last().push(x) =~= s);
        vstd::seq_lib::to_multiset_build(s.drop_last(), x);
        assert(ranked(s) == out);
        assert(out.to_multiset() == r.to_multiset().insert(x));
    }
}

/// Scores every row against `terms` and returns the best `limit` hits,
/// most matched terms first; equally good hits keep the rows' order.
pub fn rank_keyword_rows(rows: &Vec<KeywordRow>, terms: &Vec<String>, limit: usize) -> (r: Vec<SearchHit>)
    ensures
        views(r@) == top(ranked(hits_of(views(rows@), views(terms@))), limit),
{
    let ghost tv = views(terms@);
    let ghost rv = views(rows@);
    let mut term_chars: Vec<Vec<char>> = Vec::new();
    let mut t: usize = 0;
    assert(views(term_chars@) =~= tv.take(0));
    while t < terms.len()
        invariant
            t <= terms.len(),
            tv == views(terms@),
            views(term_chars@) == tv.take(t as int),
        decreases terms.len() - t,
    {
        let ghost before = views(term_chars@);
        term_chars.push(chars_of(terms[t].as_str()));
        assert(views(term_chars@) =~= before.push(tv[t as int]));
        assert(tv.take(t + 1) =~= tv.take(t as int).push(tv[t as int]));
        t = t + 1;
    }
    assert(tv.take(terms.len() as int) =~= tv);
    let term_count = terms.len() as u64;
    let mut out: Vec<SearchHit> = Vec::new();
    let mut i: usize = 0;
    assert(rv.take(0) =~= Seq::<KeywordRowView>::empty());
    assert(views(out@) =~= Seq::<SearchHitView>::empty());
    while i < rows.len()
        invariant
            i <= rows.len(),
            rv == views(rows@),
            tv == views(terms@),
            views(term_chars@) == tv,
            term_count == tv.len(),
            views(out@) == ranked(hits_of(rv.take(i as int), tv)),
        decreases rows.len() - i,
    {
        assert(rv.take(i + 1).drop_last() =~= rv.take(i as int));
        assert(rv.take(i + 1).last() == rows@[i as int]@);
        let row = &rows[i];
        let lower = to_lowercase(row.text_content.as_str());
        let lower_chars = chars_of(lower.as_str());
        let matched = count_matches(&lower_chars, &term_chars);
        if matched != 0 {
            let hit = SearchHit {
                chunk_id: row.chunk_id,
                document_id: row.document_id,
                text_content: row.text_content.clone(),
                page_or_location_ref: row.page_or_location_ref.clone(),
                matched_terms: matched,
                term_count,
            };
            let ghost hv = hit@;
            let ghost before = views(out@);
            assert(hit_of(rows@[i as int]@, tv) == Some(hv));
            let mut p: usize = 0;
            assert(before.skip(0) =~= before);
            while p < out.len() && out[p].matched_terms >= matched
                invariant
                    p <= out.len(),
                    views(out@) == before,
                    insert_pos(before, matched) == p + insert_pos(before.skip(p as int), matched),
                decreases out.len() - p,
            {
                proof {
                    lemma_insert_pos_skip(before, matched, p as int);
                }
                p = p + 1;
            }
            proof {
                if p < out.len() {
                    assert(before.skip(p as int)[0] == before[p as int]);
                } else {
                    assert(before.skip(p as int) =~= Seq::<SearchHitView>::empty());
                }
            }
            out.insert(p, hit);
            assert(views(out@) =~= before.insert(p as int, hv));
            proof {
                let h = hits_of(rv.take(i as int), tv);
                assert(hits_of(rv.take(i + 1), tv) == h.push(hv));
                assert(h.push(hv).drop_last() =~= h);
                assert(h.push(hv).last() == hv);
            }
        } else {
            assert(hit_of(rows@[i as int]@, tv) is None);
        }
        i = i + 1;
    }
    assert(rv.take(rows.len() as int) =~= rv);
    out.truncate(limit);
    proof {
        let full = ranked(hits_of(rv, tv));
        if limit < full.len() {
            assert(views(out@) =~= full.take(limit as int));
        }
    }
    out
}

// ---------------------------------------------------------------------
// The SQLite-backed search
// ---------------------------------------------------------------------

/// A `chunks` row joined to its document: `id, document_id, text_content,
/// page_or_location_ref`.
pub open spec fn keyword_row(row: Seq<SqlValue>) -> Result<KeywordRowView, Seq<char>> {
    match (int_at(row, 0), int_at(row, 1), text_at(row, 2), text_at(row, 3)) {
        (Some(c), Some(d), Some(t), Some(l)) => Ok(
            KeywordRowView { chunk_id: ChunkId(c), document_id: DocumentId(d), text_content: t, page_or_location_ref: l },
        ),
        _ => Err(row_error_message("keyword search"@)),
    }
}

pub open spec fn keyword_decoder() -> spec_fn(Vec<SqlValue>) -> Result<KeywordRowView, Seq<char>> {
    |row: Vec<SqlValue>| keyword_row(row@)
}

fn keyword_row_from(row: &Vec<SqlValue>) -> (r: Result<KeywordRow, AppError>)
    ensures
        match r {
            Ok(k) => keyword_row(row@) == Ok::<KeywordRowView, Seq<char>>(k@),
            Err(e) => keyword_row(row@) == Err::<KeywordRowView, Seq<char>>(e.message@) && is_storage_error(e),
        },
{
    match (read_int(row, 0), read_int(row, 1), read_text(row, 2), read_text(row, 3)) {
        (Some(c), Some(d), Some(t), Some(l)) => Ok(
            KeywordRow { chunk_id: ChunkId(c), document_id: DocumentId(d), text_content: t, page_or_location_ref: l },
        ),
        _ => Err(row_error("keyword search")),
    }
}

/// The statement listing every chunk of one workspace's documents.
pub const KEYWORD_CANDIDATES_SQL: &'static str = "SELECT c.id, c.document_id, c.text_content, c.page_or_location_ref FROM chunks c JOIN documents d ON d.id = c.document_id WHERE d.workspace_id = ?1";

/// The parameters of [`KEYWORD_CANDIDATES_SQL`] for `workspace_id`.
pub fn keyword_search_params(workspace_id: WorkspaceId) -> (r: Vec<SqlParam>)
    ensures
        params_view(r@) == seq![SqlParamView::Integer(workspace_id.0)],
{
    let mut v: Vec<SqlParam> = Vec::new();
    v.push(SqlParam::Integer(workspace_id.0));
    assert(params_view(v@) =~= seq![SqlParamView::Integer(workspace_id.0)]);
    v
}

/// Keyword search over the chunks stored in SQLite.
pub struct SqliteKeywordSearchRepository {
    connection: SqliteConnection,
}

impl SqliteKeywordSearchRepository {
    pub fn new(connection: SqliteConnection) -> (r: Self)
        ensures
            r.conn() == connection,
    {
        SqliteKeywordSearchRepository { connection }
    }

    /// The connection this repository was made with.
    pub closed spec fn conn(&self) -> SqliteConnection {
        self.connection
    }

    /// The best `limit` chunks of `workspace_id` for `query`: the chunks of
    /// the workspace's documents ([`KEYWORD_CANDIDATES_SQL`] with
    /// [`keyword_search_params`]), ranked by [`rank_keyword_rows`]. A query
    /// without terms finds nothing and reads nothing.
    pub fn search(&self, workspace_id: WorkspaceId, query: &str, limit: usize) -> (r: Result<
        Vec<SearchHit>,
        AppError,
    >)
        ensures
            query_terms(query@).len() == 0 ==> (r matches Ok(v) && v@.len() == 0),
            query_terms(query@).len() > 0 ==> match r {
                Ok(v) => exists|rows: Seq<KeywordRowView>|
                    #[trigger] decoded_from_rows(rows, keyword_decoder()) && views(v@) == top(
                        ranked(hits_of(rows, query_terms(query@))),
                        limit,
                    ),
                Err(e) => is_storage_error(e),
            },
    {
        let terms = search_terms(query);
        if terms.len() == 0 {
            return Ok(Vec::new());
        }
        let raw = self.connection.query(
            "keyword search query failed",
            KEYWORD_CANDIDATES_SQL,
            &keyword_search_params(workspace_id),
        )?;
        let rows = decode_all(&raw, keyword_row_from, Ghost(keyword_decoder()))?;
        assert(decoded_from_rows(views(rows@), keyword_decoder()));
        Ok(rank_keyword_rows(&rows, &terms, limit))
    }
}

} // verus!

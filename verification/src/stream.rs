//! Line-delimited JSON replies that arrive in chunks of bytes: the text is cut at
//! line feeds, each complete line is trimmed, empty lines are skipped, and what
//! is left of a line waits for the next chunk.
use vstd::prelude::*;
use vstd::utf8::valid_utf8;
use vstd::utf8::decode_utf8;
use crate::text::{
    chars_of, lemma_pieces_append, lemma_pieces_no_sep, lemma_pieces_nonempty, newline_bounds,
    pieces, segments,
    string_from, trim, trim_bounds, trim_view, views,
};

verus! {

/// What `String::from_utf8_lossy` makes of `bytes`.
pub uninterp spec fn utf8_lossy(bytes: Seq<u8>) -> Seq<char>;

/// `String::from_utf8_lossy`: decodes `bytes`, each invalid sequence replaced by
/// U+FFFD. Its result is named by `utf8_lossy`; of it only the case of valid UTF-8,
/// which decodes as it is, is stated.
#[verifier::external_body]
fn decode_lossy(bytes: &[u8]) -> (r: String)
    ensures
        r@ == utf8_lossy(bytes@),
        valid_utf8(bytes@) ==> r@ == decode_utf8(bytes@),
{
    String::from_utf8_lossy(bytes).into_owned()
}

/// Whether `serde_json::from_str::<serde_json::Value>` accepts `line`.
pub uninterp spec fn json_parses(line: Seq<char>) -> bool;

/// One step of a path into a JSON value: a member of an object, or an element of
/// an array.
pub ghost enum JsonStepView {
    Key(Seq<char>),
    Index(usize),
}

/// One step of a path into a JSON value.
pub enum JsonStep {
    Key(String),
    Index(usize),
}

impl View for JsonStep {
    type V = JsonStepView;

    open spec fn view(&self) -> JsonStepView {
        match self {
            JsonStep::Key(k) => JsonStepView::Key(k@),
            JsonStep::Index(i) => JsonStepView::Index(*i),
        }
    }
}

/// The views of a path.
pub open spec fn path_view(path: Seq<JsonStep>) -> Seq<JsonStepView> {
    path.map_values(|s: JsonStep| s@)
}

#[verifier::external_type_specification]
#[verifier::external_body]
pub struct ExJsonValue(serde_json::Value);

/// The value that `serde_json::from_str::<serde_json::Value>` makes of `text`,
/// where `text` is JSON.
pub uninterp spec fn json_value(text: Seq<char>) -> serde_json::Value;

/// What `Value::get` finds under the key `key`: the member of that name, where `v`
/// is an object that has one.
pub uninterp spec fn json_member(v: serde_json::Value, key: Seq<char>) -> Option<serde_json::Value>;

/// What `Value::get` finds at the index `index`: that element, where `v` is an
/// array that long.
pub uninterp spec fn json_element(v: serde_json::Value, index: usize) -> Option<serde_json::Value>;

/// What `Value::as_str` gives: the text of `v`, where `v` is a string.
pub uninterp spec fn json_str(v: serde_json::Value) -> Option<Seq<char>>;

/// `serde_json::from_str::<serde_json::Value>`: the parsed value, where `text` is
/// JSON.
#[verifier::external_body]
fn parse_json(text: &str) -> (r: Option<serde_json::Value>)
    ensures
        r is Some <==> json_parses(text@),
        r matches Some(v) ==> v == json_value(text@),
{
    serde_json::from_str::<serde_json::Value>(text).ok()
}

/// `Value::get` with a key: the member `key` of the object `v`.
#[verifier::external_body]
fn member<'a>(v: &'a serde_json::Value, key: &str) -> (r: Option<&'a serde_json::Value>)
    ensures
        match r {
            Some(u) => json_member(*v, key@) == Some(*u),
            None => json_member(*v, key@) is None,
        },
{
    v.get(key)
}

/// `Value::get` with an index: the element `index` of the array `v`.
#[verifier::external_body]
fn element<'a>(v: &'a serde_json::Value, index: usize) -> (r: Option<&'a serde_json::Value>)
    ensures
        match r {
            Some(u) => json_element(*v, index) == Some(*u),
            None => json_element(*v, index) is None,
        },
{
    v.get(index)
}

/// `Value::as_str`: the text of the string `v`.
#[verifier::external_body]
fn text_of(v: &serde_json::Value) -> (r: Option<String>)
    ensures
        match r {
            Some(t) => json_str(*v) == Some(t@),
            None => json_str(*v) is None,
        },
{
    v.as_str().map(|t| t.to_string())
}

/// The value that `path` leads to from `v`, if every step finds its member or
/// element.
pub open spec fn value_at(v: serde_json::Value, path: Seq<JsonStepView>) -> Option<serde_json::Value>
    decreases path.len(),
{
    if path.len() == 0 {
        Some(v)
    } else {
        match value_at(v, path.drop_last()) {
            None => None,
            Some(u) => match path.last() {
                JsonStepView::Key(k) => json_member(u, k),
                JsonStepView::Index(i) => json_element(u, i),
            },
        }
    }
}

/// The string found by following `path` into the JSON value that `text` holds, if
/// `text` is JSON, every step finds its member or element, and the end is a
/// string.
pub open spec fn json_string_at(text: Seq<char>, path: Seq<JsonStepView>) -> Option<Seq<char>> {
    if !json_parses(text) {
        None
    } else {
        match value_at(json_value(text), path) {
            Some(u) => json_str(u),
            None => None,
        }
    }
}

/// Once a step of a path finds nothing, the whole path finds nothing.
proof fn lemma_value_at_prefix(v: serde_json::Value, path: Seq<JsonStepView>, k: int)
    requires
        0 <= k <= path.len(),
        value_at(v, path.take(k)) is None,
    ensures
        value_at(v, path) is None,
    decreases path.len(),
{
    if k < path.len() {
        assert(path.drop_last().take(k) =~= path.take(k));
        lemma_value_at_prefix(v, path.drop_last(), k);
    } else {
        assert(path.take(k) =~= path);
    }
}

/// The string that `path` leads to in the JSON text `text`.
pub fn json_string(text: &str, path: &Vec<JsonStep>) -> (r: Option<String>)
    ensures
        match r {
            Some(t) => json_string_at(text@, path_view(path@)) == Some(t@),
            None => json_string_at(text@, path_view(path@)) is None,
        },
{
    let ghost pv = path_view(path@);
    match parse_json(text) {
        None => None,
        Some(v) => {
            let mut cur: &serde_json::Value = &v;
            let mut k: usize = 0;
            assert(pv.take(0) =~= Seq::<JsonStepView>::empty());
            while k < path.len()
                invariant
                    k <= path@.len(),
                    pv == path_view(path@),
                    v == json_value(text@),
                    value_at(v, pv.take(k as int)) == Some(*cur),
                decreases path@.len() - k,
            {
                assert(pv.take(k + 1).drop_last() =~= pv.take(k as int));
                assert(pv.take(k + 1).last() == path@[k as int]@);
                let next = match &path[k] {
                    JsonStep::Key(name) => member(cur, name.as_str()),
                    JsonStep::Index(i) => element(cur, *i),
                };
                match next {
                    Some(n) => {
                        cur = n;
                    },
                    None => {
                        proof {
                            lemma_value_at_prefix(v, pv, k + 1);
                        }
                        return None;
                    },
                }
                k = k + 1;
            }
            assert(pv.take(path@.len() as int) =~= pv);
            text_of(cur)
        },
    }
}

/// Where a generation's reply line carries its token: the member `"response"`.
pub open spec fn response_path() -> Seq<JsonStepView> {
    seq![JsonStepView::Key("response"@)]
}

/// The token that a reply line carries, if any.
pub fn response_token(line: &str) -> (r: Option<String>)
    ensures
        match r {
            Some(t) => json_string_at(line@, response_path()) == Some(t@),
            None => json_string_at(line@, response_path()) is None,
        },
{
    let mut path: Vec<JsonStep> = Vec::new();
    path.push(JsonStep::Key("response".to_string()));
    assert(path_view(path@) =~= response_path());
    json_string(line, &path)
}

/// The pieces of `s` between line feeds (byte 10).
pub open spec fn line_pieces(s: Seq<u8>) -> Seq<Seq<u8>> {
    pieces(s, 10u8)
}

/// The lines that a line feed has ended in `bytes`.
pub open spec fn complete_lines(bytes: Seq<u8>) -> Seq<Seq<u8>> {
    line_pieces(bytes).drop_last()
}

/// What follows the last line feed of `bytes`.
pub open spec fn pending_bytes(bytes: Seq<u8>) -> Seq<u8> {
    line_pieces(bytes).last()
}

/// `lines` decoded as `String::from_utf8_lossy` does and trimmed, with the lines
/// that this leaves empty dropped.
pub open spec fn kept_lines(lines: Seq<Seq<u8>>) -> Seq<Seq<char>>
    decreases lines.len(),
{
    if lines.len() == 0 {
        Seq::empty()
    } else {
        let p = kept_lines(lines.drop_last());
        let t = trim_view(utf8_lossy(lines.last()));
        if t.len() == 0 {
            p
        } else {
            p.push(t)
        }
    }
}

/// The tokens of those of `lines` that carry one, in order.
pub open spec fn response_tokens(lines: Seq<Seq<char>>) -> Seq<Seq<char>>
    decreases lines.len(),
{
    if lines.len() == 0 {
        Seq::empty()
    } else {
        let p = response_tokens(lines.drop_last());
        match json_string_at(lines.last(), response_path()) {
            Some(t) => p.push(t),
            None => p,
        }
    }
}

/// The pieces of `parts` one after another.
pub open spec fn concat_view(parts: Seq<Seq<char>>) -> Seq<char>
    decreases parts.len(),
{
    if parts.len() == 0 {
        Seq::empty()
    } else {
        concat_view(parts.drop_last()) + parts.last()
    }
}

/// The JSON values of those of `lines` that parse, in order.
pub open spec fn json_vals(lines: Seq<Seq<char>>) -> Seq<serde_json::Value>
    decreases lines.len(),
{
    if lines.len() == 0 {
        Seq::empty()
    } else {
        let p = json_vals(lines.drop_last());
        if json_parses(lines.last()) {
            p.push(json_value(lines.last()))
        } else {
            p
        }
    }
}

/// The bounds of the pieces of `v` between line feeds: those of every piece that
/// a line feed ends, then where the last piece starts.
fn line_feed_bounds(v: &Vec<u8>) -> (r: (Vec<(usize, usize)>, usize))
    ensures
        line_pieces(v@).len() == r.0@.len() + 1,
        forall|k: int|
            #![trigger r.0@[k]]
            0 <= k < r.0@.len() ==> r.0@[k].0 <= r.0@[k].1 <= v@.len() && line_pieces(v@)[k]
                == v@.subrange(r.0@[k].0 as int, r.0@[k].1 as int),
        r.1 <= v@.len(),
        line_pieces(v@).last() == v@.subrange(r.1 as int, v@.len() as int),
{
    let mut bounds: Vec<(usize, usize)> = Vec::new();
    let mut start: usize = 0;
    let mut i: usize = 0;
    assert(v@.take(0) =~= Seq::<u8>::empty());
    while i < v.len()
        invariant
            start <= i <= v@.len(),
            line_pieces(v@.take(i as int)).len() == bounds@.len() + 1,
            forall|k: int|
                #![trigger bounds@[k]]
                0 <= k < bounds@.len() ==> bounds@[k].0 <= bounds@[k].1 <= v@.len() && line_pieces(
                    v@.take(i as int),
                )[k] == v@.subrange(bounds@[k].0 as int, bounds@[k].1 as int),
            line_pieces(v@.take(i as int)).last() == v@.subrange(start as int, i as int),
        decreases v@.len() - i,
    {
        let ghost prev = line_pieces(v@.take(i as int));
        let ghost old_bounds = bounds@;
        assert(v@.take(i + 1).drop_last() =~= v@.take(i as int));
        assert(v@.take(i + 1).last() == v@[i as int]);
        let ghost next = line_pieces(v@.take(i + 1));
        if v[i] == 10u8 {
            assert(next == prev.push(Seq::empty()));
            bounds.push((start, i));
            start = i + 1;
            assert(v@.subrange(start as int, i + 1) =~= Seq::<u8>::empty());
            assert forall|k: int| 0 <= k < bounds@.len() implies bounds@[k].0 <= bounds@[k].1
                <= v@.len() && next[k] == v@.subrange(
                bounds@[k].0 as int,
                bounds@[k].1 as int,
            ) by {
                if k < old_bounds.len() {
                    assert(next[k] == prev[k]);
                    assert(bounds@[k] == old_bounds[k]);
                }
            }
        } else {
            assert(next == prev.update(prev.len() - 1, prev.last().push(v@[i as int])));
            assert(v@.subrange(start as int, i + 1) =~= v@.subrange(start as int, i as int).push(
                v@[i as int],
            ));
            assert forall|k: int| 0 <= k < bounds@.len() implies bounds@[k].0 <= bounds@[k].1
                <= v@.len() && next[k] == v@.subrange(
                bounds@[k].0 as int,
                bounds@[k].1 as int,
            ) by {
                assert(next[k] == prev[k]);
            }
        }
        i = i + 1;
    }
    assert(v@.take(v@.len() as int) =~= v@);
    (bounds, start)
}

/// The bytes of a reply that no line feed has ended yet.
pub struct LineBuffer {
    pub pending: Vec<u8>,
}

impl LineBuffer {
    /// A buffer that holds nothing yet.
    pub fn new() -> (b: LineBuffer)
        ensures
            b.pending@ == Seq::<u8>::empty(),
    {
        LineBuffer { pending: Vec::new() }
    }

    /// Adds the bytes of `chunk` to what is pending and hands out, in order, the
    /// lines that they complete, decoded (invalid UTF-8 replaced by U+FFFD),
    /// trimmed and without the empty ones; keeps the rest pending. A line feed is
    /// never part of a longer UTF-8 sequence, so a character cut between chunks
    /// is decoded whole.
    pub fn feed(&mut self, chunk: &[u8]) -> (lines: Vec<String>)
        ensures
            views(lines@) == kept_lines(complete_lines(old(self).pending@ + chunk@)),
            final(self).pending@ == pending_bytes(old(self).pending@ + chunk@),
    {
        let mut all: Vec<u8> = Vec::new();
        let mut j: usize = 0;
        while j < self.pending.len()
            invariant
                j <= self.pending@.len(),
                all@ == self.pending@.take(j as int),
            decreases self.pending@.len() - j,
        {
            all.push(self.pending[j]);
            j = j + 1;
            assert(all@ =~= self.pending@.take(j as int));
        }
        let mut j: usize = 0;
        let ghost before = all@;
        assert(self.pending@.take(self.pending@.len() as int) =~= self.pending@);
        while j < chunk.len()
            invariant
                j <= chunk@.len(),
                all@ == before + chunk@.take(j as int),
            decreases chunk@.len() - j,
        {
            all.push(chunk[j]);
            j = j + 1;
            assert(all@ =~= before + chunk@.take(j as int));
        }
        assert(chunk@.take(chunk@.len() as int) =~= chunk@);
        let (bounds, start) = line_feed_bounds(&all);
        let ghost segs = line_pieces(all@);
        let mut lines: Vec<String> = Vec::new();
        let mut k: usize = 0;
        assert(segs.take(0) =~= Seq::<Seq<u8>>::empty());
        while k < bounds.len()
            invariant
                k <= bounds@.len(),
                segs == line_pieces(all@),
                segs.len() == bounds@.len() + 1,
                forall|j: int|
                    #![trigger bounds@[j]]
                    0 <= j < bounds@.len() ==> bounds@[j].0 <= bounds@[j].1 <= all@.len() && segs[j]
                        == all@.subrange(bounds@[j].0 as int, bounds@[j].1 as int),
                views(lines@) == kept_lines(segs.take(k as int)),
            decreases bounds@.len() - k,
        {
            let (a, b) = bounds[k];
            assert(bounds@[k as int].0 <= bounds@[k as int].1 <= all@.len());
            let text = decode_lossy(&all.as_slice()[a..b]);
            let line = trim(text.as_str());
            assert(segs.take(k + 1).drop_last() =~= segs.take(k as int));
            assert(segs.take(k + 1).last() == segs[k as int]);
            if !line.as_str().is_empty() {
                let ghost l = line@;
                lines.push(line);
                assert(views(lines@) =~= views(lines@.drop_last()).push(l));
            }
            k = k + 1;
        }
        assert(segs.take(bounds@.len() as int) =~= segs.drop_last());
        let mut rest: Vec<u8> = Vec::new();
        let mut m = start;
        while m < all.len()
            invariant
                start <= m <= all@.len(),
                rest@ == all@.subrange(start as int, m as int),
            decreases all@.len() - m,
        {
            rest.push(all[m]);
            m = m + 1;
            assert(rest@ =~= all@.subrange(start as int, m as int));
        }
        self.pending = rest;
        lines
    }
}

/// `lines` trimmed, with the lines that trimming leaves empty dropped.
pub open spec fn kept_text_lines(lines: Seq<Seq<char>>) -> Seq<Seq<char>>
    decreases lines.len(),
{
    if lines.len() == 0 {
        Seq::empty()
    } else {
        let p = kept_text_lines(lines.drop_last());
        let t = trim_view(lines.last());
        if t.len() == 0 {
            p
        } else {
            p.push(t)
        }
    }
}

/// The text of a reply, decoded chunk by chunk, that no line feed has ended yet.
/// (Where a character is cut between two chunks, each chunk's part of it is
/// decoded on its own and becomes U+FFFD.)
pub struct TextLineBuffer {
    pub pending: String,
}

impl TextLineBuffer {
    /// A buffer that holds nothing yet.
    pub fn new() -> (b: TextLineBuffer)
        ensures
            b.pending@ == Seq::<char>::empty(),
    {
        TextLineBuffer { pending: String::new() }
    }

    /// Decodes `chunk` on its own as `String::from_utf8_lossy` does, adds the text
    /// to what is pending, and hands out, in order, the lines that it completes,
    /// trimmed and without the empty ones; keeps the rest pending.
    pub fn feed(&mut self, chunk: &[u8]) -> (lines: Vec<String>)
        ensures
            views(lines@) == kept_text_lines(
                segments(old(self).pending@ + utf8_lossy(chunk@)).drop_last(),
            ),
            final(self).pending@ == segments(old(self).pending@ + utf8_lossy(chunk@)).last(),
    {
        let text = decode_lossy(chunk);
        let mut all = self.pending.clone();
        all.append(text.as_str());
        let v = chars_of(all.as_str());
        let (bounds, start) = newline_bounds(&v);
        let ghost segs = segments(v@);
        let mut lines: Vec<String> = Vec::new();
        let mut k: usize = 0;
        assert(segs.take(0) =~= Seq::<Seq<char>>::empty());
        while k < bounds.len()
            invariant
                k <= bounds@.len(),
                segs == segments(v@),
                segs.len() == bounds@.len() + 1,
                forall|j: int|
                    #![trigger bounds@[j]]
                    0 <= j < bounds@.len() ==> bounds@[j].0 <= bounds@[j].1 <= v@.len() && segs[j]
                        == v@.subrange(bounds@[j].0 as int, bounds@[j].1 as int),
                views(lines@) == kept_text_lines(segs.take(k as int)),
            decreases bounds@.len() - k,
        {
            let (a, b) = bounds[k];
            assert(bounds@[k as int].0 <= bounds@[k as int].1 <= v@.len());
            let (x, y) = trim_bounds(&v, a, b);
            assert(segs.take(k + 1).drop_last() =~= segs.take(k as int));
            assert(segs.take(k + 1).last() == segs[k as int]);
            if x < y {
                let line = string_from(&v, x, y);
                lines.push(line);
                assert(views(lines@) =~= views(lines@.drop_last()).push(line@));
            }
            k = k + 1;
        }
        assert(segs.take(bounds@.len() as int) =~= segs.drop_last());
        self.pending = string_from(&v, start, v.len());
        lines
    }
}

/// A streamed generation: its pending text and the tokens gathered so far.
pub struct TokenStream {
    pub lines: LineBuffer,
    pub full: String,
}

impl TokenStream {
    /// A stream that has received nothing yet.
    pub fn new() -> (s: TokenStream)
        ensures
            s.lines.pending@ == Seq::<u8>::empty(),
            s.full@ == Seq::<char>::empty(),
    {
        TokenStream { lines: LineBuffer::new(), full: String::new() }
    }

    /// Takes one chunk of the reply; hands out, in order, the tokens of the lines
    /// that it completes and adds them to the text gathered so far.
    pub fn feed(&mut self, chunk: &[u8]) -> (tokens: Vec<String>)
        ensures
            views(tokens@) == response_tokens(
                kept_lines(complete_lines(old(self).lines.pending@ + chunk@)),
            ),
            final(self).lines.pending@ == pending_bytes(
                old(self).lines.pending@ + chunk@,
            ),
            final(self).full@ == old(self).full@ + concat_view(views(tokens@)),
    {
        let lines = self.lines.feed(chunk);
        let mut tokens: Vec<String> = Vec::new();
        let mut k: usize = 0;
        let ghost full0 = self.full@;
        let ghost pending = self.lines.pending@;
        assert(views(lines@).take(0) =~= Seq::<Seq<char>>::empty());
        while k < lines.len()
            invariant
                k <= lines@.len(),
                views(tokens@) == response_tokens(views(lines@).take(k as int)),
                self.full@ == full0 + concat_view(views(tokens@)),
                self.lines.pending@ == pending,
            decreases lines@.len() - k,
        {
            assert(views(lines@).take(k + 1).drop_last() =~= views(lines@).take(k as int));
            match response_token(lines[k].as_str()) {
                Some(t) => {
                    let ghost before = views(tokens@);
                    self.full.append(t.as_str());
                    tokens.push(t);
                    assert(views(tokens@).drop_last() =~= before);
                    assert(views(tokens@).last() == t@);
                    assert(self.full@ =~= full0 + concat_view(views(tokens@)));
                },
                None => {},
            }
            k = k + 1;
        }
        assert(views(lines@).take(lines@.len() as int) =~= views(lines@));
        tokens
    }

    /// The gathered text, trimmed: what the generation returns.
    pub fn finish(&self) -> (r: String)
        ensures
            r@ == trim_view(self.full@),
    {
        trim(self.full.as_str())
    }
}

/// The JSON values of those of `lines` that parse, in order.
pub fn json_values(lines: &Vec<String>) -> (r: Vec<serde_json::Value>)
    ensures
        r@ == json_vals(views(lines@)),
{
    let mut r: Vec<serde_json::Value> = Vec::new();
    let mut k: usize = 0;
    assert(views(lines@).take(0) =~= Seq::<Seq<char>>::empty());
    while k < lines.len()
        invariant
            k <= lines@.len(),
            r@ == json_vals(views(lines@).take(k as int)),
        decreases lines@.len() - k,
    {
        assert(views(lines@).take(k + 1).drop_last() =~= views(lines@).take(k as int));
        assert(views(lines@).take(k + 1).last() == lines@[k as int]@);
        match parse_json(lines[k].as_str()) {
            Some(v) => r.push(v),
            None => {},
        }
        k = k + 1;
    }
    assert(views(lines@).take(lines@.len() as int) =~= views(lines@));
    r
}

/// Trimming and dropping empty lines goes line by line.
proof fn lemma_kept_lines_append(a: Seq<Seq<u8>>, b: Seq<Seq<u8>>)
    ensures
        kept_lines(a + b) == kept_lines(a) + kept_lines(b),
    decreases b.len(),
{
    if b.len() == 0 {
        assert(a + b =~= a);
        assert(kept_lines(a) + kept_lines(b) =~= kept_lines(a));
    } else {
        lemma_kept_lines_append(a, b.drop_last());
        assert((a + b).drop_last() =~= a + b.drop_last());
        assert((a + b).last() == b.last());
        let p = kept_lines(a) + kept_lines(b.drop_last());
        assert(p.push(trim_view(utf8_lossy(b.last()))) =~= kept_lines(a) + kept_lines(b.drop_last()).push(
            trim_view(utf8_lossy(b.last())),
        ));
    }
}

/// Where a reply is cut into chunks does not matter, even inside a character:
/// feeding the bytes `a` and then `b` to a buffer that holds `pending` hands out
/// the same lines, in the same order, and leaves the same bytes pending, as
/// feeding `a + b` at once.
pub proof fn chunk_boundaries_do_not_matter(pending: Seq<u8>, a: Seq<u8>, b: Seq<u8>)
    ensures
        kept_lines(complete_lines(pending + a)) + kept_lines(
            complete_lines(pending_bytes(pending + a) + b),
        ) == kept_lines(complete_lines(pending + (a + b))),
        pending_bytes(pending_bytes(pending + a) + b) == pending_bytes(pending + (a + b)),
{
    let x = pending + a;
    assert(pending + (a + b) =~= x + b);
    lemma_pieces_append(x, b, 10u8);
    lemma_pieces_nonempty(pending_bytes(x) + b, 10u8);
    let d = line_pieces(x).drop_last();
    let q = line_pieces(pending_bytes(x) + b);
    assert((d + q).drop_last() =~= d + q.drop_last());
    lemma_kept_lines_append(d, q.drop_last());
}

proof fn lemma_response_tokens_append(a: Seq<Seq<char>>, b: Seq<Seq<char>>)
    ensures
        response_tokens(a + b) == response_tokens(a) + response_tokens(b),
    decreases b.len(),
{
    if b.len() == 0 {
        assert(a + b =~= a);
        assert(response_tokens(a) + response_tokens(b) =~= response_tokens(a));
    } else {
        lemma_response_tokens_append(a, b.drop_last());
        assert((a + b).drop_last() =~= a + b.drop_last());
        assert((a + b).last() == b.last());
        match json_string_at(b.last(), response_path()) {
            Some(t) => {
                assert((response_tokens(a) + response_tokens(b.drop_last())).push(t)
                    =~= response_tokens(a) + response_tokens(b.drop_last()).push(t));
            },
            None => {},
        }
    }
}

/// The tokens of a streamed generation do not depend on where its reply is cut
/// into chunks either: feeding `a` and then `b` yields the tokens that
/// feeding `a + b` at once yields, in the same order.
pub proof fn tokens_do_not_depend_on_chunk_boundaries(pending: Seq<u8>, a: Seq<u8>, b: Seq<u8>)
    ensures
        response_tokens(kept_lines(complete_lines(pending + a))) + response_tokens(
            kept_lines(complete_lines(pending_bytes(pending + a) + b)),
        ) == response_tokens(kept_lines(complete_lines(pending + (a + b)))),
{
    chunk_boundaries_do_not_matter(pending, a, b);
    lemma_response_tokens_append(
        kept_lines(complete_lines(pending + a)),
        kept_lines(complete_lines(pending_bytes(pending + a) + b)),
    );
}

/// The bytes of `chunks` one after another.
pub open spec fn flatten_bytes(chunks: Seq<Seq<u8>>) -> Seq<u8>
    decreases chunks.len(),
{
    if chunks.len() == 0 {
        Seq::empty()
    } else {
        flatten_bytes(chunks.drop_last()) + chunks.last()
    }
}

/// What a buffer holding `pending` keeps pending after being fed `chunks` in
/// turn.
pub open spec fn pending_after(pending: Seq<u8>, chunks: Seq<Seq<u8>>) -> Seq<u8>
    decreases chunks.len(),
{
    if chunks.len() == 0 {
        pending
    } else {
        pending_bytes(pending_after(pending, chunks.drop_last()) + chunks.last())
    }
}

/// The lines that a buffer holding `pending` hands out, in order, when fed
/// `chunks` in turn.
pub open spec fn lines_fed(pending: Seq<u8>, chunks: Seq<Seq<u8>>) -> Seq<Seq<char>>
    decreases chunks.len(),
{
    if chunks.len() == 0 {
        Seq::empty()
    } else {
        lines_fed(pending, chunks.drop_last()) + kept_lines(
            complete_lines(pending_after(pending, chunks.drop_last()) + chunks.last()),
        )
    }
}

/// However a reply is cut into chunks, and however many: a buffer whose pending
/// bytes hold no line feed (as every buffer's do) hands out the lines, and the
/// tokens, of the whole reply, in order, and keeps the same bytes pending.
pub proof fn any_chunking_gives_the_same_lines(pending: Seq<u8>, chunks: Seq<Seq<u8>>)
    requires
        forall|k: int| 0 <= k < pending.len() ==> pending[k] != 10u8,
    ensures
        lines_fed(pending, chunks) == kept_lines(complete_lines(pending + flatten_bytes(chunks))),
        response_tokens(lines_fed(pending, chunks)) == response_tokens(
            kept_lines(complete_lines(pending + flatten_bytes(chunks))),
        ),
        pending_after(pending, chunks) == pending_bytes(pending + flatten_bytes(chunks)),
    decreases chunks.len(),
{
    if chunks.len() == 0 {
        assert(pending + flatten_bytes(chunks) =~= pending);
        lemma_pieces_no_sep(pending, 10u8);
        assert(complete_lines(pending) =~= Seq::<Seq<u8>>::empty());
        assert(kept_lines(complete_lines(pending)) =~= Seq::<Seq<char>>::empty());
    } else {
        let cs = chunks.drop_last();
        let c = chunks.last();
        any_chunking_gives_the_same_lines(pending, cs);
        chunk_boundaries_do_not_matter(pending, flatten_bytes(cs), c);
        assert(flatten_bytes(chunks) == flatten_bytes(cs) + c);
    }
}

/// Every `"response"` string is a token, whatever it holds (a line break or a lone
/// space too): a line that carries one adds exactly that string to the tokens and
/// to the text gathered, and a line that carries none adds nothing.
pub proof fn every_response_string_is_a_token(lines: Seq<Seq<char>>, l: Seq<char>)
    ensures
        json_string_at(l, response_path()) matches Some(t) ==> {
            &&& response_tokens(lines.push(l)) == response_tokens(lines).push(t)
            &&& concat_view(response_tokens(lines.push(l))) == concat_view(response_tokens(lines)) + t
        },
        json_string_at(l, response_path()) is None ==> response_tokens(lines.push(l))
            == response_tokens(lines),
{
    assert(lines.push(l).drop_last() =~= lines);
    assert(lines.push(l).last() == l);
    match json_string_at(l, response_path()) {
        Some(t) => {
            assert(response_tokens(lines).push(t).drop_last() =~= response_tokens(lines));
        },
        None => {},
    }
}

} // verus!

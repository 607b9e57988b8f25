//! Codex API (OpenAI Responses API): endpoint address, role-dependent input
//! content type, and extraction of the answer text from a response.

use vstd::prelude::*;

use crate::text::{
    chars_of, has_suffix, join_line_range, join_lines, push_str, string_from_chars, str_equal,
    take_chars, trim_end_char, trim_end_matching, views, ends_with_chars,
};

verus! {

// ---------------------------------------------------------------------------
// Endpoint address
// ---------------------------------------------------------------------------

/// The Responses endpoint for a base address: trailing `/` removed, one
/// trailing `/v1` removed, then `/v1/responses` appended.
pub open spec fn codex_url(base_url: Seq<char>) -> Seq<char> {
    let t = trim_end_char(base_url, '/');
    let b = if has_suffix(t, "/v1"@) { t.take(t.len() - "/v1"@.len()) } else { t };
    b + "/v1/responses"@
}

/// Builds the Responses endpoint address from a base address.
pub fn build_codex_url(base_url: &str) -> (res: String)
    ensures
        res@ == codex_url(base_url@),
{
    let chars = chars_of(base_url);
    let trimmed = trim_end_matching(&chars, '/');
    let v1 = chars_of("/v1");
    let mut out = if ends_with_chars(&trimmed, &v1) {
        take_chars(&trimmed, trimmed.len() - v1.len())
    } else {
        trimmed
    };
    push_str(&mut out, "/v1/responses");
    string_from_chars(&out)
}

/// The content type of an input message: `output_text` for the assistant's
/// own turns, `input_text` for every other role.
pub open spec fn content_type_for_role(role: Seq<char>) -> Seq<char> {
    if role == "assistant"@ {
        "output_text"@
    } else {
        "input_text"@
    }
}

/// Picks the content type of an input message from its role.
pub fn input_content_type(role: &str) -> (res: &'static str)
    ensures
        res@ == content_type_for_role(role@),
{
    if str_equal(role, "assistant") {
        "output_text"
    } else {
        "input_text"
    }
}

// ---------------------------------------------------------------------------
// Responses
// ---------------------------------------------------------------------------

/// One content part of an output message.
pub struct ContentPart {
    pub content_type: String,
    pub text: Option<String>,
    pub refusal: Option<String>,
}

/// One output item of a response.
pub struct CodexOutput {
    pub output_type: String,
    pub phase: Option<String>,
    pub content: Option<Vec<ContentPart>>,
}

/// A Responses API reply.
pub struct CodexApiResponse {
    pub output: Vec<CodexOutput>,
}

/// The characters of an optional string.
pub open spec fn opt_view(o: Option<String>) -> Option<Seq<char>> {
    match o {
        Some(s) => Some(s@),
        None => None,
    }
}

/// Plain values of a content part.
pub struct ContentPartView {
    pub content_type: Seq<char>,
    pub text: Option<Seq<char>>,
    pub refusal: Option<Seq<char>>,
}

/// Plain values of an output item.
pub struct CodexOutputView {
    pub output_type: Seq<char>,
    pub phase: Option<Seq<char>>,
    pub content: Option<Seq<ContentPartView>>,
}

impl View for ContentPart {
    type V = ContentPartView;

    open spec fn view(&self) -> ContentPartView {
        ContentPartView {
            content_type: self.content_type@,
            text: opt_view(self.text),
            refusal: opt_view(self.refusal),
        }
    }
}

/// Plain values of a sequence of content parts.
pub open spec fn parts_view(parts: Seq<ContentPart>) -> Seq<ContentPartView> {
    parts.map_values(|p: ContentPart| p@)
}

impl View for CodexOutput {
    type V = CodexOutputView;

    open spec fn view(&self) -> CodexOutputView {
        CodexOutputView {
            output_type: self.output_type@,
            phase: opt_view(self.phase),
            content: match self.content {
                Some(v) => Some(parts_view(v@)),
                None => None,
            },
        }
    }
}

impl View for CodexApiResponse {
    type V = Seq<CodexOutputView>;

    open spec fn view(&self) -> Seq<CodexOutputView> {
        self.output@.map_values(|o: CodexOutput| o@)
    }
}

/// Why no answer text could be extracted.
#[derive(Debug)]
pub enum CodexError {
    /// The model refused; the refusal texts joined with newlines.
    Refusal(String),
    /// Neither answer text nor a refusal was present.
    NoOutputText,
}

impl CodexError {
    /// The error message.
    pub fn message(&self) -> (res: String)
        ensures
            res@ == match self {
                CodexError::Refusal(r) => "Codex API refusal: "@ + r@,
                CodexError::NoOutputText => "Codex API returned no output_text content"@,
            },
    {
        match self {
            CodexError::Refusal(r) => {
                let mut out = chars_of("Codex API refusal: ");
                push_str(&mut out, r.as_str());
                string_from_chars(&out)
            },
            CodexError::NoOutputText => "Codex API returned no output_text content".to_owned(),
        }
    }
}

/// Unicode White_Space characters (what `char::is_whitespace` and `str::trim` use).
pub open spec fn is_white_space(c: char) -> bool {
    let v = c as u32;
    (9 <= v && v <= 13) || v == 32 || v == 0x85 || v == 0xa0 || v == 0x1680 || (0x2000 <= v && v
        <= 0x200a) || v == 0x2028 || v == 0x2029 || v == 0x202f || v == 0x205f || v == 0x3000
}

/// `s` without trailing white space.
pub open spec fn trim_ws_end(s: Seq<char>) -> Seq<char>
    decreases s.len(),
{
    if s.len() > 0 && is_white_space(s.last()) {
        trim_ws_end(s.drop_last())
    } else {
        s
    }
}

/// `s` without leading white space.
pub open spec fn trim_ws_start(s: Seq<char>) -> Seq<char>
    decreases s.len(),
{
    if s.len() > 0 && is_white_space(s[0]) {
        trim_ws_start(s.drop_first())
    } else {
        s
    }
}

/// `s` without leading and trailing white space (as `str::trim`).
pub open spec fn trim_ws(s: Seq<char>) -> Seq<char> {
    trim_ws_start(trim_ws_end(s))
}

fn white_space(c: char) -> (res: bool)
    ensures
        res == is_white_space(c),
{
    let v: u32 = c as u32;
    (9 <= v && v <= 13) || v == 32 || v == 0x85 || v == 0xa0 || v == 0x1680 || (0x2000 <= v && v
        <= 0x200a) || v == 0x2028 || v == 0x2029 || v == 0x202f || v == 0x205f || v == 0x3000
}

/// Removes leading and trailing white space.
pub fn trim_white_space(s: &str) -> (res: Vec<char>)
    ensures
        res@ == trim_ws(s@),
{
    let chars = chars_of(s);
    let mut end = chars.len();
    assert(chars@.take(end as int) =~= chars@);
    while end > 0 && white_space(chars[end - 1])
        invariant
            end <= chars@.len(),
            trim_ws_end(chars@.take(end as int)) == trim_ws_end(chars@),
        decreases end,
    {
        assert(chars@.take(end as int).drop_last() =~= chars@.take(end - 1));
        end = end - 1;
    }
    let ghost t = chars@.take(end as int);
    assert(trim_ws_end(t) == t);
    let mut start: usize = 0;
    assert(t.subrange(0, t.len() as int) =~= t);
    while start < end && white_space(chars[start])
        invariant
            start <= end <= chars@.len(),
            t == chars@.take(end as int),
            trim_ws_start(t.subrange(start as int, t.len() as int)) == trim_ws_start(t),
        decreases end - start,
    {
        assert(t.subrange(start as int, t.len() as int).drop_first() =~= t.subrange(start + 1, t.len() as int));
        start = start + 1;
    }
    let mut out: Vec<char> = Vec::new();
    let mut i: usize = start;
    while i < end
        invariant
            start <= i <= end <= chars@.len(),
            out@ == chars@.subrange(start as int, i as int),
        decreases end - i,
    {
        out.push(chars[i]);
        i = i + 1;
        assert(chars@.subrange(start as int, i as int) =~= chars@.subrange(start as int, i - 1).push(chars@[i - 1]));
    }
    assert(out@ =~= t.subrange(start as int, t.len() as int));
    out
}

/// The output is a message of the final-answer phase.
pub open spec fn is_final_answer(o: CodexOutputView) -> bool {
    o.output_type == "message"@ && o.phase == Some("final_answer"@)
}

/// The output is a message.
pub open spec fn is_message(o: CodexOutputView) -> bool {
    o.output_type == "message"@
}

/// The messages the answer is taken from: those of the final-answer phase
/// if there are any, else all messages.
pub open spec fn candidate_messages(outs: Seq<CodexOutputView>) -> Seq<CodexOutputView> {
    if outs.filter(|o: CodexOutputView| is_final_answer(o)).len() > 0 {
        outs.filter(|o: CodexOutputView| is_final_answer(o))
    } else {
        outs.filter(|o: CodexOutputView| is_message(o))
    }
}

/// The trimmed, non-empty texts of the parts of type `kind`, taken from
/// the `text` field (`use_text`) or the `refusal` field.
pub open spec fn part_strings(parts: Seq<ContentPartView>, kind: Seq<char>, use_text: bool) -> Seq<Seq<char>>
    decreases parts.len(),
{
    if parts.len() == 0 {
        Seq::empty()
    } else {
        let p = parts.last();
        let field = if use_text { p.text } else { p.refusal };
        let more = if p.content_type == kind && field is Some && trim_ws(field->0).len() > 0 {
            seq![trim_ws(field->0)]
        } else {
            Seq::empty()
        };
        part_strings(parts.drop_last(), kind, use_text) + more
    }
}

/// The strings of `part_strings` over the content of each message in turn.
pub open spec fn message_strings(msgs: Seq<CodexOutputView>, kind: Seq<char>, use_text: bool) -> Seq<Seq<char>>
    decreases msgs.len(),
{
    if msgs.len() == 0 {
        Seq::empty()
    } else {
        let more = match msgs.last().content {
            Some(parts) => part_strings(parts, kind, use_text),
            None => Seq::empty(),
        };
        message_strings(msgs.drop_last(), kind, use_text) + more
    }
}

/// The answer texts of a response.
pub open spec fn output_texts(outs: Seq<CodexOutputView>) -> Seq<Seq<char>> {
    message_strings(candidate_messages(outs), "output_text"@, true)
}

/// The refusal texts of a response.
pub open spec fn refusal_texts(outs: Seq<CodexOutputView>) -> Seq<Seq<char>> {
    message_strings(candidate_messages(outs), "refusal"@, false)
}

/// The strings of two runs of parts are those of the first run followed by
/// those of the second.
pub proof fn law_part_strings_concat(a: Seq<ContentPartView>, b: Seq<ContentPartView>, kind: Seq<char>, use_text: bool)
    ensures
        part_strings(a + b, kind, use_text) == part_strings(a, kind, use_text) + part_strings(b, kind, use_text),
    decreases b.len(),
{
    if b.len() == 0 {
        assert(a + b =~= a);
        assert(part_strings(a, kind, use_text) + part_strings(b, kind, use_text) =~= part_strings(a, kind, use_text));
    } else {
        law_part_strings_concat(a, b.drop_last(), kind, use_text);
        assert((a + b).drop_last() =~= a + b.drop_last());
        assert((a + b).last() == b.last());
        let p = b.last();
        let field = if use_text { p.text } else { p.refusal };
        let more = if p.content_type == kind && field is Some && trim_ws(field->0).len() > 0 {
            seq![trim_ws(field->0)]
        } else {
            Seq::<Seq<char>>::empty()
        };
        assert(part_strings(a, kind, use_text) + part_strings(b.drop_last(), kind, use_text) + more
            =~= part_strings(a, kind, use_text) + (part_strings(b.drop_last(), kind, use_text) + more));
    }
}

/// The strings of two runs of messages are those of the first run followed
/// by those of the second: every candidate message contributes its parts.
pub proof fn law_message_strings_concat(a: Seq<CodexOutputView>, b: Seq<CodexOutputView>, kind: Seq<char>, use_text: bool)
    ensures
        message_strings(a + b, kind, use_text) == message_strings(a, kind, use_text) + message_strings(b, kind, use_text),
    decreases b.len(),
{
    if b.len() == 0 {
        assert(a + b =~= a);
        assert(message_strings(a, kind, use_text) + message_strings(b, kind, use_text) =~= message_strings(a, kind, use_text));
    } else {
        law_message_strings_concat(a, b.drop_last(), kind, use_text);
        assert((a + b).drop_last() =~= a + b.drop_last());
        assert((a + b).last() == b.last());
        let more = match b.last().content {
            Some(parts) => part_strings(parts, kind, use_text),
            None => Seq::<Seq<char>>::empty(),
        };
        assert(message_strings(a, kind, use_text) + message_strings(b.drop_last(), kind, use_text) + more
            =~= message_strings(a, kind, use_text) + (message_strings(b.drop_last(), kind, use_text) + more));
    }
}

proof fn lemma_part_strings_one(p: ContentPartView, kind: Seq<char>, use_text: bool)
    ensures
        ({
            let field = if use_text { p.text } else { p.refusal };
            p.content_type == kind && field is Some && trim_ws(field->0).len() > 0 ==> part_strings(seq![p], kind, use_text)
                == seq![trim_ws(field->0)]
        }),
{
    let one = seq![p];
    assert(one.drop_last() =~= Seq::<ContentPartView>::empty());
    assert(one.last() == p);
    assert(part_strings(one.drop_last(), kind, use_text) == Seq::<Seq<char>>::empty());
    let field = if use_text { p.text } else { p.refusal };
    if p.content_type == kind && field is Some && trim_ws(field->0).len() > 0 {
        assert(Seq::<Seq<char>>::empty() + seq![trim_ws(field->0)] =~= seq![trim_ws(field->0)]);
    }
}

/// Every part of kind `kind` with a non-blank text, in any of the messages,
/// gives its trimmed text among the strings.
pub proof fn law_message_strings_keep_every_part(
    msgs: Seq<CodexOutputView>,
    i: int,
    k: int,
    kind: Seq<char>,
    use_text: bool,
)
    requires
        0 <= i < msgs.len(),
        msgs[i].content is Some,
        0 <= k < msgs[i].content->0.len(),
        msgs[i].content->0[k].content_type == kind,
        (if use_text { msgs[i].content->0[k].text } else { msgs[i].content->0[k].refusal }) is Some,
        trim_ws((if use_text { msgs[i].content->0[k].text } else { msgs[i].content->0[k].refusal })->0).len() > 0,
    ensures
        message_strings(msgs, kind, use_text).contains(
            trim_ws((if use_text { msgs[i].content->0[k].text } else { msgs[i].content->0[k].refusal })->0),
        ),
{
    let parts = msgs[i].content->0;
    let p = parts[k];
    let t = trim_ws((if use_text { p.text } else { p.refusal })->0);
    // The part's string lies inside the message's strings.
    assert(parts =~= parts.take(k) + seq![p] + parts.skip(k + 1));
    law_part_strings_concat(parts.take(k) + seq![p], parts.skip(k + 1), kind, use_text);
    law_part_strings_concat(parts.take(k), seq![p], kind, use_text);
    lemma_part_strings_one(p, kind, use_text);
    let ps = part_strings(parts, kind, use_text);
    let before = part_strings(parts.take(k), kind, use_text);
    assert(ps[before.len() as int] == t);
    // The message's strings lie inside the strings of all messages.
    let m = msgs[i];
    assert(msgs =~= msgs.take(i) + seq![m] + msgs.skip(i + 1));
    law_message_strings_concat(msgs.take(i) + seq![m], msgs.skip(i + 1), kind, use_text);
    law_message_strings_concat(msgs.take(i), seq![m], kind, use_text);
    let one = seq![m];
    assert(one.drop_last() =~= Seq::<CodexOutputView>::empty());
    assert(one.last() == m);
    assert(message_strings(one.drop_last(), kind, use_text) == Seq::<Seq<char>>::empty());
    assert(message_strings(one, kind, use_text) =~= ps);
    let all = message_strings(msgs, kind, use_text);
    let front = message_strings(msgs.take(i), kind, use_text);
    assert(all[(front.len() + before.len()) as int] == t);
}

/// The answer is taken from messages only, and only from final-answer
/// messages when the response has any; every final-answer message (or,
/// without any, every message) of the response is a candidate.
pub proof fn law_candidates_are_messages(outs: Seq<CodexOutputView>)
    ensures
        forall|i: int| 0 <= i < candidate_messages(outs).len() ==> is_message(#[trigger] candidate_messages(outs)[i]),
        (exists|j: int| 0 <= j < outs.len() && is_final_answer(#[trigger] outs[j])) ==> forall|i: int|
            0 <= i < candidate_messages(outs).len() ==> is_final_answer(#[trigger] candidate_messages(outs)[i]),
        forall|j: int|
            0 <= j < outs.len() && is_final_answer(#[trigger] outs[j]) ==> candidate_messages(outs).contains(outs[j]),
        (forall|j: int| 0 <= j < outs.len() ==> !is_final_answer(#[trigger] outs[j])) ==> forall|j: int|
            0 <= j < outs.len() && is_message(#[trigger] outs[j]) ==> candidate_messages(outs).contains(outs[j]),
{
    let fin = |o: CodexOutputView| is_final_answer(o);
    let msg = |o: CodexOutputView| is_message(o);
    assert forall|i: int| 0 <= i < candidate_messages(outs).len() implies is_message(#[trigger] candidate_messages(outs)[i]) by {
        if outs.filter(fin).len() > 0 {
            outs.lemma_filter_pred(fin, i);
        } else {
            outs.lemma_filter_pred(msg, i);
        }
    }
    assert forall|j: int| 0 <= j < outs.len() && is_final_answer(#[trigger] outs[j]) implies candidate_messages(outs).contains(outs[j]) by {
        outs.lemma_filter_contains(fin, j);
        assert(outs.filter(fin).len() > 0);
    }
    if exists|j: int| 0 <= j < outs.len() && is_final_answer(#[trigger] outs[j]) {
        let j = choose|j: int| 0 <= j < outs.len() && is_final_answer(#[trigger] outs[j]);
        outs.lemma_filter_contains(fin, j);
        assert(outs.filter(fin).len() > 0);
        assert forall|i: int| 0 <= i < candidate_messages(outs).len() implies is_final_answer(#[trigger] candidate_messages(outs)[i]) by {
            outs.lemma_filter_pred(fin, i);
        }
    }
    if forall|j: int| 0 <= j < outs.len() ==> !is_final_answer(#[trigger] outs[j]) {
        if outs.filter(fin).len() > 0 {
            let x = outs.filter(fin)[0];
            outs.lemma_filter_pred(fin, 0);
            assert(outs.filter(fin).contains(x));
            outs.lemma_filter_contains_rev(fin, x);
            let j = choose|j: int| 0 <= j < outs.len() && outs[j] == x;
            assert(is_final_answer(outs[j]));
        }
        assert(outs.filter(fin).len() == 0);
        assert forall|j: int| 0 <= j < outs.len() && is_message(#[trigger] outs[j]) implies candidate_messages(outs).contains(outs[j]) by {
            outs.lemma_filter_contains(msg, j);
        }
    }
}

/// Every non-blank `output_text` part of every candidate message appears
/// in the answer texts.
pub proof fn law_output_texts_keep_every_part(outs: Seq<CodexOutputView>, i: int, k: int)
    requires
        0 <= i < candidate_messages(outs).len(),
        candidate_messages(outs)[i].content is Some,
        0 <= k < candidate_messages(outs)[i].content->0.len(),
        candidate_messages(outs)[i].content->0[k].content_type == "output_text"@,
        candidate_messages(outs)[i].content->0[k].text is Some,
        trim_ws(candidate_messages(outs)[i].content->0[k].text->0).len() > 0,
    ensures
        output_texts(outs).contains(trim_ws(candidate_messages(outs)[i].content->0[k].text->0)),
{
    law_message_strings_keep_every_part(candidate_messages(outs), i, k, "output_text"@, true);
}

proof fn lemma_filter_push_output(s: Seq<CodexOutputView>, pred: spec_fn(CodexOutputView) -> bool, x: CodexOutputView)
    ensures
        pred(x) ==> s.push(x).filter(pred) == s.filter(pred).push(x),
        !pred(x) ==> s.push(x).filter(pred) == s.filter(pred),
{
    reveal(Seq::filter);
    assert(s.push(x).drop_last() == s);
}

/// Collects the strings of `part_strings` of one message's parts.
fn collect_part_strings(parts: &Vec<ContentPart>, kind: &str, use_text: bool, out: &mut Vec<Vec<char>>)
    ensures
        views(final(out)@) == views(old(out)@) + part_strings(parts_view(parts@), kind@, use_text),
{
    let n = parts.len();
    let mut i: usize = 0;
    while i < n
        invariant
            n == parts@.len(),
            i <= n,
            views(out@) == views(old(out)@) + part_strings(parts_view(parts@).take(i as int), kind@, use_text),
        decreases n - i,
    {
        let p = &parts[i];
        let ghost pv = parts_view(parts@);
        assert(pv.take(i + 1).drop_last() =~= pv.take(i as int));
        assert(pv.take(i + 1).last() == p@);
        let field = if use_text { &p.text } else { &p.refusal };
        if str_equal(p.content_type.as_str(), kind) {
            match field {
                Some(f) => {
                    let t = trim_white_space(f.as_str());
                    if t.len() > 0 {
                        let ghost before = views(out@);
                        let ghost tv = t@;
                        out.push(t);
                        assert(views(out@) =~= before.push(tv));
                    }
                },
                None => {},
            }
        }
        i = i + 1;
        proof {
            let prev = views(old(out)@) + part_strings(pv.take(i - 1), kind@, use_text);
            assert(views(out@) =~= views(old(out)@) + part_strings(pv.take(i as int), kind@, use_text)) by {
                assert(pv.take(i as int).drop_last() =~= pv.take(i - 1));
            }
        }
    }
    assert(parts_view(parts@).take(n as int) =~= parts_view(parts@));
}

/// Extracts the answer text of a response: messages of the final-answer
/// phase are preferred over all messages; their non-empty trimmed
/// `output_text` parts are joined with newlines. Without any, their
/// refusals are reported; without those, the lack of output.
pub fn extract_output_text(api_response: &CodexApiResponse) -> (res: Result<String, CodexError>)
    ensures
        output_texts(api_response@).len() > 0 ==> (res matches Ok(t) && t@ == join_lines(output_texts(api_response@))),
        output_texts(api_response@).len() == 0 && refusal_texts(api_response@).len() > 0 ==> (res matches Err(CodexError::Refusal(r)) && r@ == join_lines(refusal_texts(api_response@))),
        output_texts(api_response@).len() == 0 && refusal_texts(api_response@).len() == 0 ==> (res matches Err(CodexError::NoOutputText)),
{
    let outs = &api_response.output;
    let n = outs.len();
    let ghost ov = api_response@;
    let ghost fin = |o: CodexOutputView| is_final_answer(o);
    let ghost msg = |o: CodexOutputView| is_message(o);
    // Count the final-answer messages.
    let mut final_count: usize = 0;
    let mut i: usize = 0;
    while i < n
        invariant
            n == outs@.len(),
            ov == outs@.map_values(|o: CodexOutput| o@),
            fin == (|o: CodexOutputView| is_final_answer(o)),
            i <= n,
            final_count == ov.take(i as int).filter(fin).len(),
            final_count <= i,
        decreases n - i,
    {
        let o = &outs[i];
        proof {
            assert(ov.take(i + 1) =~= ov.take(i as int).push(o@));
            lemma_filter_push_output(ov.take(i as int), fin, o@);
        }
        let is_fin = str_equal(o.output_type.as_str(), "message") && match &o.phase {
            Some(ph) => str_equal(ph.as_str(), "final_answer"),
            None => false,
        };
        if is_fin {
            final_count = final_count + 1;
        }
        i = i + 1;
    }
    assert(ov.take(n as int) =~= ov);
    let use_final = final_count > 0;
    let ghost pred = if use_final { fin } else { msg };
    assert(candidate_messages(ov) == ov.filter(pred));
    let mut texts: Vec<Vec<char>> = Vec::new();
    let mut refusals: Vec<Vec<char>> = Vec::new();
    let mut j: usize = 0;
    while j < n
        invariant
            n == outs@.len(),
            ov == outs@.map_values(|o: CodexOutput| o@),
            fin == (|o: CodexOutputView| is_final_answer(o)),
            msg == (|o: CodexOutputView| is_message(o)),
            pred == (if use_final { fin } else { msg }),
            j <= n,
            views(texts@) == message_strings(ov.take(j as int).filter(pred), "output_text"@, true),
            views(refusals@) == message_strings(ov.take(j as int).filter(pred), "refusal"@, false),
        decreases n - j,
    {
        let o = &outs[j];
        let ghost prefix = ov.take(j as int);
        proof {
            assert(ov.take(j + 1) =~= prefix.push(o@));
            lemma_filter_push_output(prefix, pred, o@);
        }
        let is_msg = str_equal(o.output_type.as_str(), "message");
        let selected = if use_final {
            is_msg && match &o.phase {
                Some(ph) => str_equal(ph.as_str(), "final_answer"),
                None => false,
            }
        } else {
            is_msg
        };
        if selected {
            match &o.content {
                Some(parts) => {
                    collect_part_strings(parts, "output_text", true, &mut texts);
                    collect_part_strings(parts, "refusal", false, &mut refusals);
                },
                None => {},
            }
            proof {
                let f = prefix.filter(pred);
                assert(f.push(o@).drop_last() =~= f);
            }
        }
        j = j + 1;
    }
    assert(ov.take(n as int) =~= ov);
    if texts.len() > 0 {
        let joined = join_line_range(&texts, 0, texts.len());
        assert(views(texts@).subrange(0, texts@.len() as int) =~= views(texts@));
        return Ok(string_from_chars(&joined));
    }
    if refusals.len() > 0 {
        let joined = join_line_range(&refusals, 0, refusals.len());
        assert(views(refusals@).subrange(0, refusals@.len() as int) =~= views(refusals@));
        return Err(CodexError::Refusal(string_from_chars(&joined)));
    }
    Err(CodexError::NoOutputText)
}

} // verus!

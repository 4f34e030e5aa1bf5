//! Questions to Google Gemini, answered as a stream of partial responses that
//! is shown in one message, edited as it grows.
use vstd::prelude::*;

use crate::commands::CommandTrait;
use crate::rate_limit::RateLimiter;
use crate::text::{
    chars_of, decimal, join, push_chars, push_decimal, push_joined, push_str, str_equal,
    string_from_chars,
};

verus! {

pub const SYSTEM_INSTRUCTION: &'static str =
    "Be concise and precise. Don't be verbose. Answer in the language the user wrote in.";

/// One part of a generated answer.
pub enum PartResponse {
    Text(String),
    /// Inline binary data, which cannot be shown.
    InlineData,
}

pub struct CitationSource {
    pub uri: Option<String>,
    pub license: Option<String>,
}

pub struct Content {
    pub parts: Vec<PartResponse>,
}

pub struct CitationMetadata {
    pub citation_sources: Vec<CitationSource>,
}

pub struct Candidate {
    pub content: Option<Content>,
    pub finish_reason: Option<String>,
    pub citation_metadata: Option<CitationMetadata>,
}

pub struct SafetyRating {
    pub category: String,
    pub blocked: bool,
}

pub struct PromptFeedback {
    pub block_reason: Option<String>,
    pub safety_ratings: Option<Vec<SafetyRating>>,
}

/// One chunk of the response stream.
pub struct GenerateContentResponse {
    pub candidates: Vec<Candidate>,
    pub prompt_feedback: Option<PromptFeedback>,
}

/// The answer received so far.
pub struct GenerationProgress {
    pub parts: Vec<PartResponse>,
    pub finish_reason: Option<String>,
    pub citation_sources: Vec<CitationSource>,
}

/// A request part.
pub enum Part {
    Text(String),
    /// An uploaded file, by its URI.
    FileData(String),
}

pub open spec fn content_parts(c: Option<Content>) -> Seq<PartResponse> {
    match c {
        Some(content) => content.parts@,
        None => Seq::empty(),
    }
}

pub open spec fn metadata_sources(m: Option<CitationMetadata>) -> Seq<CitationSource> {
    match m {
        Some(metadata) => metadata.citation_sources@,
        None => Seq::empty(),
    }
}

/// The categories of the ratings that blocked the prompt, in order.
pub open spec fn blocked_categories(rs: Seq<SafetyRating>) -> Seq<Seq<char>>
    decreases rs.len(),
{
    if rs.len() == 0 {
        Seq::empty()
    } else if rs.last().blocked {
        blocked_categories(rs.drop_last()).push(rs.last().category@)
    } else {
        blocked_categories(rs.drop_last())
    }
}

/// The error a stream chunk is answered with, if any: a blocked prompt, or a
/// chunk without any candidate.
pub open spec fn update_error(r: GenerateContentResponse) -> Option<Seq<char>> {
    if r.prompt_feedback is Some && r.prompt_feedback->0.block_reason is Some {
        let pf = r.prompt_feedback->0;
        let br = pf.block_reason->0;
        if br@ == "SAFETY"@ && pf.safety_ratings is Some {
            Some(
                "request blocked by Google: "@ + join(
                    blocked_categories(pf.safety_ratings->0@),
                    ", "@,
                ) + "."@,
            )
        } else {
            Some("request blocked by Google."@)
        }
    } else if r.candidates.len() == 0 {
        Some("no response generated."@)
    } else {
        None
    }
}

pub open spec fn part_text(p: PartResponse) -> Seq<char> {
    match p {
        PartResponse::Text(t) => t@,
        PartResponse::InlineData => "[unsupported response part]"@,
    }
}

/// The answer's text: its parts one after the other.
pub open spec fn parts_text(ps: Seq<PartResponse>) -> Seq<char>
    decreases ps.len(),
{
    if ps.len() == 0 {
        Seq::empty()
    } else {
        parts_text(ps.drop_last()) + part_text(ps.last())
    }
}

/// The line of the `i`-th source (counted from zero): its number from one,
/// its license when there is a non-empty one, and its URI. Sources without a
/// URI are left out.
pub open spec fn citation_entry(s: CitationSource, i: int) -> Seq<char> {
    match s.uri {
        None => Seq::empty(),
        Some(u) => {
            let license = match s.license {
                Some(l) => if l@.len() > 0 {
                    "["@ + l@ + "] "@
                } else {
                    Seq::empty()
                },
                None => Seq::empty(),
            };
            "\n["@ + decimal((i + 1) as nat) + "] "@ + license + u@
        },
    }
}

pub open spec fn citations_text(ss: Seq<CitationSource>) -> Seq<char>
    decreases ss.len(),
{
    if ss.len() == 0 {
        Seq::empty()
    } else {
        citations_text(ss.drop_last()) + citation_entry(ss.last(), ss.len() - 1)
    }
}

/// The message text for the answer so far: `…` while it is not finished, the
/// finish reason unless it is `STOP`, and the cited sources.
pub open spec fn progress_text(
    parts: Seq<PartResponse>,
    finish_reason: Option<String>,
    sources: Seq<CitationSource>,
    finished: bool,
) -> Seq<char> {
    let t = parts_text(parts);
    let t = if finished {
        t
    } else {
        t.push('…')
    };
    let t = if finish_reason matches Some(r) && r@ != "STOP"@ {
        t + " [finish reason: "@ + finish_reason->0@ + "]"@
    } else {
        t
    };
    if sources.len() > 0 {
        t + "\n\n"@ + citations_text(sources)
    } else {
        t
    }
}

/// The parts' text is each part's text in turn: a text part gives exactly
/// its text, and the text of two runs of parts is the first's followed by the
/// second's.
pub proof fn lemma_parts_text_concatenates(a: Seq<PartResponse>, b: Seq<PartResponse>, t: String)
    ensures
        parts_text(seq![PartResponse::Text(t)]) == t@,
        parts_text(a + b) == parts_text(a) + parts_text(b),
    decreases b.len(),
{
    let one = seq![PartResponse::Text(t)];
    assert(one.drop_last() =~= Seq::<PartResponse>::empty());
    assert(parts_text(Seq::<PartResponse>::empty()) == Seq::<char>::empty());
    assert(one.last() == PartResponse::Text(t));
    assert(parts_text(one) == parts_text(one.drop_last()) + part_text(one.last()));
    assert(Seq::<char>::empty() + t@ =~= t@);
    if b.len() == 0 {
        assert(a + b =~= a);
        assert(parts_text(a) + parts_text(b) =~= parts_text(a));
    } else {
        assert((a + b).drop_last() =~= a + b.drop_last());
        lemma_parts_text_concatenates(a, b.drop_last(), t);
        assert(parts_text(a + b) =~= parts_text(a) + parts_text(b));
    }
}

/// A finish reason of `STOP` is not shown: the message is the same as for an
/// answer without a finish reason.
pub proof fn lemma_stop_not_shown(
    parts: Seq<PartResponse>,
    sources: Seq<CitationSource>,
    finished: bool,
    stop: String,
)
    requires
        stop@ == "STOP"@,
    ensures
        progress_text(parts, Some(stop), sources, finished) == progress_text(parts, None, sources, finished),
{
}

/// A finished answer without a finish reason to show and without sources is
/// exactly its parts' text.
pub proof fn lemma_finished_answer_is_its_text(parts: Seq<PartResponse>, finish_reason: Option<String>)
    requires
        finish_reason matches Some(r) ==> r@ == "STOP"@,
    ensures
        progress_text(parts, finish_reason, Seq::empty(), true) == parts_text(parts),
{
}

/// Any finish reason other than `STOP` is noted after the text, and the
/// sources come after that, separated by a blank line.
pub proof fn lemma_other_reason_shown(
    parts: Seq<PartResponse>,
    reason: String,
    sources: Seq<CitationSource>,
)
    requires
        reason@ != "STOP"@,
    ensures
        progress_text(parts, Some(reason), Seq::empty(), true) == parts_text(parts)
            + " [finish reason: "@ + reason@ + "]"@,
        sources.len() > 0 ==> progress_text(parts, Some(reason), sources, true) == progress_text(
            parts,
            Some(reason),
            Seq::empty(),
            true,
        ) + "\n\n"@ + citations_text(sources),
{
}

/// An unfinished answer ends its text with `…`, before any note.
pub proof fn lemma_unfinished_marked(parts: Seq<PartResponse>, finish_reason: Option<String>, sources: Seq<CitationSource>)
    ensures
        progress_text(parts, finish_reason, sources, false).len() > parts_text(parts).len(),
        progress_text(parts, finish_reason, sources, false)[parts_text(parts).len() as int] == '…',
        progress_text(parts, finish_reason, sources, false).take(parts_text(parts).len() as int)
            == parts_text(parts),
{
    let t = parts_text(parts).push('…');
    let r = progress_text(parts, finish_reason, sources, false);
    let n = parts_text(parts).len() as int;
    assert(r.take(n + 1) =~= t) by {
        if finish_reason is Some && finish_reason->0@ != "STOP"@ {
            let x = finish_reason->0;
            let u = t + " [finish reason: "@ + x@ + "]"@;
            assert(u.take(n + 1) =~= t);
            if sources.len() > 0 {
                assert((u + "\n\n"@ + citations_text(sources)).take(n + 1) =~= t);
            }
        } else if sources.len() > 0 {
            assert((t + "\n\n"@ + citations_text(sources)).take(n + 1) =~= t);
        }
    }
    assert(r.take(n) =~= parts_text(parts)) by {
        assert(r.take(n) =~= r.take(n + 1).take(n));
    }
    assert(r[n] == r.take(n + 1)[n]);
}

/// Lists the sources that have a URI, one per line, numbered from one.
pub fn format_citations(citation_sources: &Vec<CitationSource>) -> (r: String)
    ensures
        r@ == citations_text(citation_sources@),
{
    let out = citations_chars(citation_sources);
    string_from_chars(out.as_slice())
}

fn citations_chars(citation_sources: &Vec<CitationSource>) -> (out: Vec<char>)
    ensures
        out@ == citations_text(citation_sources@),
{
    let mut out: Vec<char> = Vec::new();
    let mut i: usize = 0;
    while i < citation_sources.len()
        invariant
            i <= citation_sources.len(),
            out@ == citations_text(citation_sources@.take(i as int)),
        decreases citation_sources.len() - i,
    {
        let source = &citation_sources[i];
        let ghost before = out@;
        if let Some(uri) = &source.uri {
            push_str(&mut out, "\n[");
            push_decimal(&mut out, i as u128 + 1);
            push_str(&mut out, "] ");
            if let Some(license) = &source.license {
                if !license.as_str().is_empty() {
                    push_str(&mut out, "[");
                    push_str(&mut out, license.as_str());
                    push_str(&mut out, "] ");
                }
            }
            push_str(&mut out, uri.as_str());
        }
        proof {
            let entry = citation_entry(citation_sources@[i as int], i as int);
            assert(out@ =~= before + entry);
            assert(citation_sources@.take(i + 1).drop_last() =~= citation_sources@.take(i as int));
        }
        i = i + 1;
    }
    assert(citation_sources@.take(citation_sources@.len() as int) =~= citation_sources@);
    out
}

fn take_parts(c: Option<Content>) -> (r: Vec<PartResponse>)
    ensures
        r@ == content_parts(c),
{
    match c {
        Some(content) => content.parts,
        None => Vec::new(),
    }
}

fn take_sources(m: Option<CitationMetadata>) -> (r: Vec<CitationSource>)
    ensures
        r@ == metadata_sources(m),
{
    match m {
        Some(metadata) => metadata.citation_sources,
        None => Vec::new(),
    }
}

fn blocked_list(rs: &Vec<SafetyRating>) -> (out: Vec<char>)
    ensures
        out@ == join(blocked_categories(rs@), ", "@),
{
    let mut out: Vec<char> = Vec::new();
    let mut i: usize = 0;
    let mut first = true;
    while i < rs.len()
        invariant
            i <= rs.len(),
            out@ == join(blocked_categories(rs@.take(i as int)), ", "@),
            first == (blocked_categories(rs@.take(i as int)).len() == 0),
        decreases rs.len() - i,
    {
        assert(rs@.take(i + 1).drop_last() =~= rs@.take(i as int));
        if rs[i].blocked {
            let category = chars_of(rs[i].category.as_str());
            push_joined(&mut out, &category, ", ", first, Ghost(blocked_categories(rs@.take(i as int))));
            first = false;
        }
        i = i + 1;
    }
    assert(rs@.take(rs@.len() as int) =~= rs@);
    out
}

/// `p` is `before` with the first candidate of `response` added.
pub open spec fn absorbed(
    before: GenerationProgress,
    p: GenerationProgress,
    response: GenerateContentResponse,
) -> bool {
    let c = response.candidates@[0];
    &&& p.parts@ == before.parts@ + content_parts(c.content)
    &&& p.citation_sources@ == if c.content is Some {
        metadata_sources(c.citation_metadata)
    } else {
        before.citation_sources@
    }
    &&& p.finish_reason == c.finish_reason
}

/// `p` is the progress that starts from candidate `c`.
pub open spec fn started_from(p: GenerationProgress, c: Candidate) -> bool {
    &&& p.parts@ == content_parts(c.content)
    &&& p.finish_reason == c.finish_reason
    &&& p.citation_sources@ == metadata_sources(c.citation_metadata)
}

impl GenerationProgress {
    /// Starts from the first candidate of the first chunk.
    pub fn new(candidate: Candidate) -> (r: Self)
        ensures
            started_from(r, candidate),
    {
        let Candidate { content, finish_reason, citation_metadata } = candidate;
        GenerationProgress {
            parts: take_parts(content),
            finish_reason,
            citation_sources: take_sources(citation_metadata),
        }
    }

    /// Adds a chunk of the stream. A blocked prompt or a chunk without a
    /// candidate is an error and changes nothing; otherwise the first
    /// candidate's parts are appended, its citations replace the earlier
    /// ones when it has content, and its finish reason is taken over.
    pub fn update(&mut self, response: GenerateContentResponse) -> (r: Result<(), String>)
        ensures
            match update_error(response) {
                Some(e) => r matches Err(m) && m@ == e && *final(self) == *old(self),
                None => r is Ok && absorbed(*old(self), *final(self), response),
            },
    {
        let GenerateContentResponse { candidates, prompt_feedback } = response;
        if let Some(prompt_feedback) = prompt_feedback {
            if let Some(block_reason) = &prompt_feedback.block_reason {
                if str_equal(block_reason.as_str(), "SAFETY") {
                    if let Some(safety_ratings) = &prompt_feedback.safety_ratings {
                        let mut out: Vec<char> = Vec::new();
                        push_str(&mut out, "request blocked by Google: ");
                        let reasons = blocked_list(safety_ratings);
                        push_chars(&mut out, &reasons);
                        push_str(&mut out, ".");
                        return Err(string_from_chars(out.as_slice()));
                    }
                }
                return Err(String::from_str("request blocked by Google."));
            }
        }
        let mut candidates = candidates;
        if candidates.len() == 0 {
            return Err(String::from_str("no response generated."));
        }
        let candidate = candidates.remove(0);
        let Candidate { content, finish_reason, citation_metadata } = candidate;
        if let Some(content) = content {
            let mut new_parts = content.parts;
            self.parts.append(&mut new_parts);
            self.citation_sources = take_sources(citation_metadata);
        }
        self.finish_reason = finish_reason;
        Ok(())
    }

    /// The message text for the answer so far.
    pub fn format(&self, finished: bool) -> (r: String)
        ensures
            r@ == progress_text(self.parts@, self.finish_reason, self.citation_sources@, finished),
    {
        let mut text: Vec<char> = Vec::new();
        let mut i: usize = 0;
        while i < self.parts.len()
            invariant
                i <= self.parts.len(),
                text@ == parts_text(self.parts@.take(i as int)),
            decreases self.parts.len() - i,
        {
            match &self.parts[i] {
                PartResponse::Text(t) => push_str(&mut text, t.as_str()),
                PartResponse::InlineData => push_str(&mut text, "[unsupported response part]"),
            }
            assert(self.parts@.take(i + 1).drop_last() =~= self.parts@.take(i as int));
            i = i + 1;
        }
        assert(self.parts@.take(self.parts@.len() as int) =~= self.parts@);
        if !finished {
            text.push('…');
        }
        if let Some(finish_reason) = &self.finish_reason {
            if !str_equal(finish_reason.as_str(), "STOP") {
                push_str(&mut text, " [finish reason: ");
                push_str(&mut text, finish_reason.as_str());
                push_str(&mut text, "]");
            }
        }
        if self.citation_sources.len() > 0 {
            push_str(&mut text, "\n\n");
            let citations = citations_chars(&self.citation_sources);
            push_chars(&mut text, &citations);
        }
        string_from_chars(text.as_slice())
    }
}

/// What happened while waiting for the next chunk of the stream.
pub enum StreamEvent {
    Response(GenerateContentResponse),
    /// The stream ended.
    Ended,
    /// The time for the next message update came.
    Timeout,
}

/// The streamed answer as far as the message is concerned.
pub struct StreamState {
    pub progress: Option<GenerationProgress>,
    /// Whether the answer changed since the message was last written.
    pub changed_after_last_update: bool,
}

/// What to do after an event: write the message with a text, whether the
/// stream is done, and whether the next update is due a full interval later.
pub struct StreamAction {
    pub publish: Option<String>,
    pub finished: bool,
    pub reset_timer: bool,
}

impl StreamState {
    pub fn new() -> (r: Self)
        ensures
            r.progress is None,
            !r.changed_after_last_update,
    {
        StreamState { progress: None, changed_after_last_update: false }
    }

    /// Handles one event. A chunk is added to the answer; the end of the
    /// stream or a due update writes the message when the answer changed
    /// since the last write.
    pub fn step(&mut self, event: StreamEvent) -> (r: Result<StreamAction, String>)
        ensures
            match event {
                StreamEvent::Response(resp) => match old(self).progress {
                    Some(p) => match update_error(resp) {
                        Some(e) => r matches Err(m) && m@ == e && *final(self) == *old(self),
                        None => r matches Ok(a) && a.publish is None && !a.finished
                            && !a.reset_timer && final(self).changed_after_last_update
                            && (final(self).progress matches Some(q) && absorbed(p, q, resp)),
                    },
                    None => r matches Ok(a) && a.publish is None && !a.finished && !a.reset_timer
                        && if resp.candidates.len() > 0 {
                        &&& final(self).changed_after_last_update
                        &&& (final(self).progress matches Some(q) && started_from(
                            q,
                            resp.candidates@[0],
                        ))
                    } else {
                        *final(self) == *old(self)
                    },
                },
                _ => {
                    let ended = event is Ended;
                    r matches Ok(a) && final(self).progress == old(self).progress && if old(
                        self,
                    ).changed_after_last_update {
                        match old(self).progress {
                            Some(p) => {
                                &&& (a.publish matches Some(t) && t@ == progress_text(
                                    p.parts@,
                                    p.finish_reason,
                                    p.citation_sources@,
                                    ended,
                                ))
                                &&& a.finished == ended
                                &&& a.reset_timer
                                &&& !final(self).changed_after_last_update
                            },
                            None => {
                                &&& a.publish is None
                                &&& !a.finished
                                &&& a.reset_timer == !ended
                                &&& final(self).changed_after_last_update
                            },
                        }
                    } else {
                        &&& a.publish is None
                        &&& a.finished == ended
                        &&& a.reset_timer == !ended
                        &&& !final(self).changed_after_last_update
                    }
                },
            },
    {
        let (update_message, finished, timed_out) = match event {
            StreamEvent::Response(response) => {
                match self.progress.take() {
                    Some(mut progress) => {
                        let result = progress.update(response);
                        self.progress = Some(progress);
                        match result {
                            Ok(()) => {
                                self.changed_after_last_update = true;
                            },
                            Err(e) => {
                                return Err(e);
                            },
                        }
                    },
                    None => {
                        let mut candidates = response.candidates;
                        if candidates.len() > 0 {
                            let candidate = candidates.remove(0);
                            self.progress = Some(GenerationProgress::new(candidate));
                            self.changed_after_last_update = true;
                        }
                    },
                }
                (false, false, false)
            },
            StreamEvent::Ended => (true, true, false),
            StreamEvent::Timeout => (true, false, true),
        };
        if update_message && self.changed_after_last_update {
            match &self.progress {
                Some(progress) => {
                    let text = progress.format(finished);
                    self.changed_after_last_update = false;
                    return Ok(StreamAction { publish: Some(text), finished, reset_timer: true });
                },
                None => {
                    return Ok(StreamAction { publish: None, finished: false, reset_timer: timed_out });
                },
            }
        }
        Ok(StreamAction { publish: None, finished, reset_timer: timed_out })
    }
}

/// The parts of a request and the separate system instruction, if any.
pub struct RequestParts {
    pub parts: Vec<Part>,
    pub system_instruction: Option<Vec<Part>>,
}

/// Attached files may have at most 64 MiB.
pub fn check_attachment_size(size: i64) -> (r: Result<(), String>)
    ensures
        match r {
            Ok(()) => size <= 64 * 1024 * 1024,
            Err(m) => size > 64 * 1024 * 1024 && m@ == "the file cannot be larger than 64 MiB."@,
        },
{
    if size > 64 * 1024 * 1024 {
        Err(String::from_str("the file cannot be larger than 64 MiB."))
    } else {
        Ok(())
    }
}

/// With an uploaded file, the request holds the prompt (or a request to
/// comment on the file) and the file, and the system instruction is sent
/// separately; without one it holds the system instruction and the prompt,
/// and a prompt is needed.
pub fn request_parts(prompt: Option<String>, file_uri: Option<String>) -> (r: Result<
    RequestParts,
    String,
>)
    ensures
        match file_uri {
            Some(uri) => r matches Ok(rp) && rp.parts@.len() == 2 && (match rp.parts@[0] {
                Part::Text(t) => t@ == match prompt {
                    Some(p) => p@,
                    None => "Comment briefly on what you see."@,
                },
                _ => false,
            }) && (rp.parts@[1] matches Part::FileData(u) && u@ == uri@) && (
            rp.system_instruction matches Some(si) && si@.len() == 1 && (si@[0] matches Part::Text(
                t,
            ) && t@ == SYSTEM_INSTRUCTION@)),
            None => match prompt {
                Some(p) => r matches Ok(rp) && rp.system_instruction is None && rp.parts@.len() == 2
                    && (rp.parts@[0] matches Part::Text(t) && t@ == SYSTEM_INSTRUCTION@) && (
                rp.parts@[1] matches Part::Text(t) && t@ == p@),
                None => r matches Err(m) && m@ == "no prompt or file provided."@,
            },
        },
{
    match file_uri {
        Some(uri) => {
            let mut parts: Vec<Part> = Vec::new();
            match prompt {
                Some(p) => parts.push(Part::Text(p)),
                None => parts.push(Part::Text(String::from_str("Comment briefly on what you see."))),
            }
            parts.push(Part::FileData(uri));
            let mut system_instruction: Vec<Part> = Vec::new();
            system_instruction.push(Part::Text(String::from_str(SYSTEM_INSTRUCTION)));
            Ok(RequestParts { parts, system_instruction: Some(system_instruction) })
        },
        None => {
            let mut parts: Vec<Part> = Vec::new();
            parts.push(Part::Text(String::from_str(SYSTEM_INSTRUCTION)));
            match prompt {
                Some(p) => {
                    parts.push(Part::Text(p));
                    Ok(RequestParts { parts, system_instruction: None })
                },
                None => Err(String::from_str("no prompt or file provided.")),
            }
        },
    }
}

pub struct GoogleGemini {
    command_names: &'static [&'static str],
    description: &'static str,
    model: &'static str,
}

impl GoogleGemini {
    pub closed spec fn spec_model(&self) -> Seq<char> {
        self.model@
    }

    pub fn gemini() -> (r: Self)
        ensures
            r.spec_names() == seq!["gemini"@, "g"@],
            r.spec_description() == Some("ask Gemini 1.5 Flash"@),
            r.spec_model() == "gemini-1.5-flash-latest"@,
    {
        let r = Self {
            command_names: &["gemini", "g"],
            description: "ask Gemini 1.5 Flash",
            model: "gemini-1.5-flash-latest",
        };
        assert(r.spec_names() =~= seq!["gemini"@, "g"@]);
        r
    }

    pub fn gemini2() -> (r: Self)
        ensures
            r.spec_names() == seq!["gemini2"@, "g2"@],
            r.spec_description() == Some("ask Gemini 2.0 Flash"@),
            r.spec_model() == "gemini-2.0-flash-exp"@,
    {
        let r = Self {
            command_names: &["gemini2", "g2"],
            description: "ask Gemini 2.0 Flash",
            model: "gemini-2.0-flash-exp",
        };
        assert(r.spec_names() =~= seq!["gemini2"@, "g2"@]);
        r
    }

    /// The model that answers.
    pub fn model(&self) -> (r: &'static str)
        ensures
            r@ == self.spec_model(),
    {
        self.model
    }

    pub fn rate_limit(&self) -> (r: RateLimiter<i64>)
        ensures
            r@.limit == 3,
            r@.duration == 45,
            r@.history == Map::<i64, Seq<i32>>::empty(),
    {
        RateLimiter::new(3, 45)
    }
}

impl CommandTrait for GoogleGemini {
    closed spec fn spec_names(&self) -> Seq<Seq<char>> {
        self.command_names@.map_values(|s: &str| s@)
    }

    closed spec fn spec_description(&self) -> Option<Seq<char>> {
        Some(self.description@)
    }

    fn command_names(&self) -> (r: &[&str]) {
        self.command_names
    }

    fn description(&self) -> (r: Option<&'static str>) {
        Some(self.description)
    }
}

} // verus!

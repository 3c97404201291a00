//! From a token stream to the event stream of the generation endpoint.

use vstd::prelude::*;
use vstd::string::StringExecFns;

use super::generate_aggregator;
use super::generate_aggregator::finish_reason_to_generate;
use super::logprob_conversion;
use super::logprob_conversion::input_logprobs_to_generate;
use super::logprob_conversion::output_logprobs_to_generate;
use crate::duplicate::Duplicate;
use crate::json;
use crate::json::put;
use crate::json::Json;
use crate::json::JsonView;
use crate::prepare::response_context::ProtocolRequest;
use crate::protocols::generate;
use crate::protocols::generate::GenerateFinishReason;
use crate::protocols::generate::GenerateFinishReasonView;
use crate::protocols::generate::LogprobEntry;
use crate::text;
use crate::token_handle::token_chunk::TokenChunk;
use crate::token_handle::token_chunk::TokenChunkView;
use crate::token_handle::token_handle;
use crate::token_handle::token_handle::StreamPoll;
use crate::token_handle::token_handle::TokenHandle;
use crate::token_handle::token_handle::TokenSource;
use crate::tokenizer::Tokenizer;

verus! {

/// What the last event of an answer tells besides what every event does.
#[derive(Debug)]
pub struct FinishFields {
    pub finish_reason: GenerateFinishReason,
    pub input_token_logprobs: Option<Vec<LogprobEntry>>,
}

/// One event of the stream.
#[derive(Debug)]
pub struct GenerateFrame {
    pub text: String,
    pub output_ids: Vec<u32>,
    pub id: String,
    pub prompt_tokens: u32,
    pub weight_version: String,
    pub output_token_logprobs: Option<Vec<LogprobEntry>>,
    pub completion_tokens: u32,
    pub cached_tokens: u32,
    /// Only the last event of an answer has this.
    pub finish: Option<FinishFields>,
}

/// What the last event of an answer tells besides what every event does.
#[verifier::ext_equal]
pub struct FinishFieldsView {
    pub finish_reason: GenerateFinishReasonView,
    pub input_token_logprobs: Option<Seq<LogprobEntry>>,
}

/// One event of the stream.
#[verifier::ext_equal]
pub struct GenerateFrameView {
    pub text: Seq<char>,
    pub output_ids: Seq<u32>,
    pub id: Seq<char>,
    pub prompt_tokens: u32,
    pub weight_version: Seq<char>,
    pub output_token_logprobs: Option<Seq<LogprobEntry>>,
    pub completion_tokens: u32,
    pub cached_tokens: u32,
    pub finish: Option<FinishFieldsView>,
}

impl View for GenerateFrame {
    type V = GenerateFrameView;

    open spec fn view(&self) -> GenerateFrameView {
        GenerateFrameView {
            text: self.text@,
            output_ids: self.output_ids@,
            id: self.id@,
            prompt_tokens: self.prompt_tokens,
            weight_version: self.weight_version@,
            output_token_logprobs: generate::entries_view(self.output_token_logprobs),
            completion_tokens: self.completion_tokens,
            cached_tokens: self.cached_tokens,
            finish: match self.finish {
                Some(f) => Some(
                    FinishFieldsView {
                        finish_reason: f.finish_reason@,
                        input_token_logprobs: generate::entries_view(f.input_token_logprobs),
                    },
                ),
                None => None,
            },
        }
    }
}

/// The JSON of those fields of an event that hold doubles. `null` stands where there is
/// nothing to tell.
#[derive(Debug)]
pub struct EncodedFrameFields {
    pub output_token_logprobs: Json,
    pub input_token_logprobs: Json,
    /// The seconds since the request came.
    pub e2e_latency: Json,
}

/// The number as JSON.
pub open spec fn num(n: nat) -> JsonView {
    JsonView::Number(text::decimal(n))
}

/// Why generation ended, as JSON: its type, and with a length the length; anything else
/// as it is.
pub open spec fn reason_view(reason: GenerateFinishReasonView) -> JsonView {
    match reason {
        GenerateFinishReasonView::Stop => JsonView::Object(
            Map::empty().insert("type"@, JsonView::Str("stop"@)),
        ),
        GenerateFinishReasonView::Length { length } => JsonView::Object(
            Map::empty().insert("type"@, JsonView::Str("length"@)).insert(
                "length"@,
                num(length as nat),
            ),
        ),
        GenerateFinishReasonView::Other(v) => v,
    }
}

pub fn reason_json(reason: &GenerateFinishReason) -> (r: Json)
    ensures
        r@ == reason_view(reason@),
{
    match reason {
        GenerateFinishReason::Stop => {
            let mut fields: Vec<(String, Json)> = Vec::new();
            put(&mut fields, "type", Json::string("stop"));
            Json::Object(fields)
        },
        GenerateFinishReason::Length { length } => {
            let mut fields: Vec<(String, Json)> = Vec::new();
            put(&mut fields, "type", Json::string("length"));
            put(&mut fields, "length", Json::uint(*length as u64));
            Json::Object(fields)
        },
        GenerateFinishReason::Other(v) => v.copy(),
    }
}

/// What an event tells of the generation. The last event of an answer tells more.
pub open spec fn meta_view(frame: GenerateFrameView, encoded: EncodedFrameFields) -> JsonView {
    let common = Map::empty().insert("id"@, JsonView::Str(frame.id)).insert(
        "prompt_tokens"@,
        num(frame.prompt_tokens as nat),
    ).insert("weight_version"@, JsonView::Str(frame.weight_version)).insert(
        "output_token_logprobs"@,
        encoded.output_token_logprobs@,
    ).insert("completion_tokens"@, num(frame.completion_tokens as nat)).insert(
        "cached_tokens"@,
        num(frame.cached_tokens as nat),
    );
    JsonView::Object(
        match frame.finish {
            None => common.insert("finish_reason"@, JsonView::Null),
            Some(f) => common.insert("finish_reason"@, reason_view(f.finish_reason)).insert(
                "input_token_logprobs"@,
                encoded.input_token_logprobs@,
            ).insert("e2e_latency"@, encoded.e2e_latency@),
        },
    )
}

/// The token ids as JSON.
pub open spec fn ids_view(ids: Seq<u32>) -> JsonView {
    JsonView::Array(ids.map_values(|id: u32| num(id as nat)))
}

/// An event as JSON.
pub open spec fn frame_view(frame: GenerateFrameView, encoded: EncodedFrameFields) -> JsonView {
    JsonView::Object(
        Map::empty().insert("text"@, JsonView::Str(frame.text)).insert(
            "output_ids"@,
            ids_view(frame.output_ids),
        ).insert("meta_info"@, meta_view(frame, encoded)).insert("index"@, num(0)),
    )
}

fn ids_json(ids: &Vec<u32>) -> (r: Json)
    ensures
        r@ == ids_view(ids@),
{
    let mut items: Vec<Json> = Vec::new();
    for i in 0..ids.len()
        invariant
            json::array_view(items@) =~= ids@.take(i as int).map_values(|id: u32| num(id as nat)),
    {
        let ghost before = items@;
        items.push(Json::uint(ids[i] as u64));
        proof {
            json::lemma_array_push(before, items@.last());
            assert(items@ =~= before.push(items@.last()));
            assert(ids@.take(i + 1) =~= ids@.take(i as int).push(ids@[i as int]));
        }
    }
    assert(ids@.take(ids@.len() as int) =~= ids@);
    Json::Array(items)
}

impl GenerateFrame {
    /// The event as JSON.
    pub fn to_json(&self, encoded: &EncodedFrameFields) -> (r: Json)
        ensures
            r@ == frame_view(self@, *encoded),
    {
        let mut meta: Vec<(String, Json)> = Vec::new();
        put(&mut meta, "id", Json::string(self.id.as_str()));
        put(&mut meta, "prompt_tokens", Json::uint(self.prompt_tokens as u64));
        put(&mut meta, "weight_version", Json::string(self.weight_version.as_str()));
        put(&mut meta, "output_token_logprobs", encoded.output_token_logprobs.copy());
        put(&mut meta, "completion_tokens", Json::uint(self.completion_tokens as u64));
        put(&mut meta, "cached_tokens", Json::uint(self.cached_tokens as u64));
        match &self.finish {
            None => {
                put(&mut meta, "finish_reason", Json::Null);
            },
            Some(f) => {
                put(&mut meta, "finish_reason", reason_json(&f.finish_reason));
                put(&mut meta, "input_token_logprobs", encoded.input_token_logprobs.copy());
                put(&mut meta, "e2e_latency", encoded.e2e_latency.copy());
            },
        }
        let mut fields: Vec<(String, Json)> = Vec::new();
        put(&mut fields, "text", Json::string(self.text.as_str()));
        put(&mut fields, "output_ids", ids_json(&self.output_ids));
        put(&mut fields, "meta_info", Json::Object(meta));
        put(&mut fields, "index", Json::uint(0));
        Json::Object(fields)
    }

    /// The server-sent event.
    pub fn to_sse(&self, encoded: &EncodedFrameFields) -> (r: String)
        ensures
            r@ == "data: "@ + json::written(frame_view(self@, *encoded)) + "\n\n"@,
    {
        text::join3("data: ", self.to_json(encoded).to_text().as_str(), "\n\n")
    }

    /// What the client would be told, were it still there: that this event could not be
    /// sent.
    pub fn send_failure(&self) -> (r: String)
        ensures
            r@ == (if self.finish is Some {
                "send finish"@
            } else {
                "send chunk"@
            }),
    {
        match &self.finish {
            Some(_) => "send finish".to_owned(),
            None => "send chunk".to_owned(),
        }
    }
}

/// An answer that is being streamed: what was told of it so far.
#[derive(Debug)]
pub struct GenerateStream {
    pub request_id: String,
    /// The model that the metrics name.
    pub model: String,
    pub return_logprob: bool,
    pub accumulated_text: String,
    pub completion_tokens: u32,
    pub weight_version: Option<String>,
    pub prompt_tokens_seen: u32,
    pub accumulated_output_logprobs: Option<Vec<LogprobEntry>>,
}

/// An answer that is being streamed.
#[verifier::ext_equal]
pub struct GenerateStreamView {
    pub request_id: Seq<char>,
    pub model: Seq<char>,
    pub return_logprob: bool,
    pub accumulated_text: Seq<char>,
    pub completion_tokens: u32,
    pub weight_version: Option<Seq<char>>,
    pub prompt_tokens_seen: u32,
    pub accumulated_output_logprobs: Option<Seq<LogprobEntry>>,
}

impl View for GenerateStream {
    type V = GenerateStreamView;

    open spec fn view(&self) -> GenerateStreamView {
        GenerateStreamView {
            request_id: self.request_id@,
            model: self.model@,
            return_logprob: self.return_logprob,
            accumulated_text: self.accumulated_text@,
            completion_tokens: self.completion_tokens,
            weight_version: match self.weight_version {
                Some(version) => Some(version@),
                None => None,
            },
            prompt_tokens_seen: self.prompt_tokens_seen,
            accumulated_output_logprobs: generate::entries_view(self.accumulated_output_logprobs),
        }
    }
}

/// A count with that many more. The count starts anew where it leaves its 32 bits.
pub open spec fn counted(count: u32, more: nat) -> u32 {
    ((count + more) % 0x1_0000_0000) as u32
}

fn count_on(count: u32, more: usize) -> (r: u32)
    ensures
        r == counted(count, more as nat),
{
    let more: u64 = more as u64;
    let low: u32 = more as u32;
    assert(low == more % 0x1_0000_0000) by (bit_vector)
        requires
            low == more as u32,
    ;
    count.wrapping_add(low)
}

impl GenerateStreamView {
    /// An answer of which nothing was told yet.
    pub open spec fn fresh(request_id: Seq<char>, model: Seq<char>, return_logprob: bool) -> Self {
        GenerateStreamView {
            request_id,
            model,
            return_logprob,
            accumulated_text: Seq::empty(),
            completion_tokens: 0,
            weight_version: None,
            prompt_tokens_seen: 0,
            accumulated_output_logprobs: None,
        }
    }

    /// The weights that generate, as far as they are known.
    pub open spec fn version(self) -> Seq<char> {
        match self.weight_version {
            Some(version) => version,
            None => "default"@,
        }
    }

    /// What is known once a chunk has come. `said` is the text of its tokens. A partial
    /// chunk adds to the text and to the count; a complete one tells the count of the
    /// prompt and, where it was not known, the version of the weights.
    pub open spec fn after(self, chunk: TokenChunkView, said: Seq<char>) -> Self {
        match chunk {
            TokenChunkView::Partial { token_ids, logprobs } => GenerateStreamView {
                accumulated_text: self.accumulated_text + said,
                completion_tokens: counted(self.completion_tokens, token_ids.len()),
                accumulated_output_logprobs: match logprobs {
                    Some(lp) if self.return_logprob => Some(logprob_conversion::entries(lp.items)),
                    _ => self.accumulated_output_logprobs,
                },
                ..self
            },
            TokenChunkView::Complete { usage, meta, .. } => GenerateStreamView {
                prompt_tokens_seen: usage.prompt_tokens,
                weight_version: match self.weight_version {
                    Some(version) => Some(version),
                    None => meta.weight_version,
                },
                ..self
            },
        }
    }

    /// The event that tells of a chunk, once it has been taken in. That of a complete
    /// chunk repeats the last token id and tells the log probabilities of the chunk, or
    /// else those told last.
    pub open spec fn event(self, chunk: TokenChunkView) -> GenerateFrameView {
        let common = GenerateFrameView {
            text: self.accumulated_text,
            output_ids: Seq::empty(),
            id: self.request_id + "-0"@,
            prompt_tokens: self.prompt_tokens_seen,
            weight_version: self.version(),
            output_token_logprobs: self.accumulated_output_logprobs,
            completion_tokens: self.completion_tokens,
            cached_tokens: 0,
            finish: None,
        };
        match chunk {
            TokenChunkView::Partial { token_ids, .. } => GenerateFrameView {
                output_ids: token_ids,
                ..common
            },
            TokenChunkView::Complete {
                token_ids,
                finish_reason,
                usage,
                logprobs,
                input_logprobs,
                meta,
                ..
            } => GenerateFrameView {
                output_ids: if token_ids.len() == 0 {
                    Seq::empty()
                } else {
                    seq![token_ids.last()]
                },
                output_token_logprobs: if !self.return_logprob {
                    None
                } else {
                    match logprobs {
                        Some(lp) => Some(logprob_conversion::entries(lp.items)),
                        None => self.accumulated_output_logprobs,
                    }
                },
                completion_tokens: usage.completion_tokens,
                cached_tokens: meta.cached_tokens,
                finish: Some(
                    FinishFieldsView {
                        finish_reason: generate_aggregator::finish_view(
                            finish_reason,
                            usage.completion_tokens,
                        ),
                        input_token_logprobs: match input_logprobs {
                            Some(lp) if self.return_logprob => Some(
                                logprob_conversion::entries(lp.items),
                            ),
                            _ => None,
                        },
                    },
                ),
                ..common
            },
        }
    }
}

/// The text of the tokens of a partial chunk; none where the tokenizer fails.
pub open spec fn chunk_text<T: Tokenizer>(tokenizer: T, chunk: TokenChunkView) -> Seq<char> {
    match chunk {
        TokenChunkView::Partial { token_ids, .. } => match tokenizer.decoding(token_ids, true) {
            Ok(said) => said,
            Err(_) => Seq::empty(),
        },
        TokenChunkView::Complete { .. } => Seq::empty(),
    }
}

/// The frames that end a stream: where it failed, what went wrong, and the end.
pub open spec fn closing(failure: Option<Seq<char>>) -> Seq<Seq<char>> {
    match failure {
        Some(e) => seq!["data: {\"error\": \""@ + e + "\"}\n\n"@, "data: [DONE]\n\n"@],
        None => seq!["data: [DONE]\n\n"@],
    }
}

pub fn closing_frames(failure: Option<&str>) -> (r: Vec<String>)
    ensures
        r.deep_view() == closing(
            match failure {
                Some(e) => Some(e@),
                None => None,
            },
        ),
{
    let mut frames: Vec<String> = Vec::new();
    if let Some(e) = failure {
        frames.push(text::join3("data: {\"error\": \"", e, "\"}\n\n"));
    }
    frames.push("data: [DONE]\n\n".to_owned());
    assert(frames.deep_view() =~= closing(
        match failure {
            Some(e) => Some(e@),
            None => None,
        },
    ));
    frames
}

/// The frames of a stream that fails from the start.
pub fn build_error_sse(message: &str) -> (r: Vec<String>)
    ensures
        r.deep_view() == closing(Some(message@)),
{
    closing_frames(Some(message))
}

/// How far the streaming of an answer has come.
#[derive(Debug)]
pub enum StreamRun {
    /// Nothing is ready; the stream is to be polled again.
    Pending,
    /// The stream has ended cleanly.
    Finished,
    /// The stream has failed, or the client is gone.
    Failed(String),
}

/// Where events go: those that were sent, and whether the client still listens.
#[derive(Debug)]
pub struct FrameSink {
    pub open: bool,
    pub frames: Vec<GenerateFrame>,
}

/// What events say.
pub open spec fn frames_view(frames: Seq<GenerateFrame>) -> Seq<GenerateFrameView> {
    frames.map_values(|frame: GenerateFrame| frame@)
}

impl FrameSink {
    pub fn new() -> (r: Self)
        ensures
            r.open,
            r.frames@.len() == 0,
    {
        FrameSink { open: true, frames: Vec::new() }
    }

    /// Sends an event, unless the client is gone.
    pub fn send(&mut self, frame: GenerateFrame) -> (sent: bool)
        ensures
            sent == old(self).open,
            final(self).open == old(self).open,
            frames_view(final(self).frames@) == (if sent {
                frames_view(old(self).frames@).push(frame@)
            } else {
                frames_view(old(self).frames@)
            }),
    {
        if self.open {
            self.frames.push(frame);
            assert(frames_view(self.frames@) =~= frames_view(old(self).frames@).push(frame@));
            true
        } else {
            false
        }
    }
}

/// The chunks among what a stream gave, in order.
pub open spec fn chunks(polls: Seq<StreamPoll>) -> Seq<TokenChunkView>
    decreases polls.len(),
{
    if polls.len() == 0 {
        Seq::empty()
    } else {
        match polls.last() {
            StreamPoll::Item(Ok(chunk)) => chunks(polls.drop_last()).push(chunk.deep_view()),
            _ => chunks(polls.drop_last()),
        }
    }
}

/// The events that tell of chunks, in order.
pub open spec fn events<T: Tokenizer>(
    start: GenerateStreamView,
    chunks: Seq<TokenChunkView>,
    tokenizer: T,
) -> Seq<GenerateFrameView>
    decreases chunks.len(),
{
    if chunks.len() == 0 {
        Seq::empty()
    } else {
        events(start, chunks.drop_last(), tokenizer).push(
            streamed(start, chunks, tokenizer).event(chunks.last()),
        )
    }
}

impl GenerateStream {
    pub fn new(request_id: String, model: String, return_logprob: bool) -> (r: Self)
        ensures
            r@ == GenerateStreamView::fresh(request_id@, model@, return_logprob),
    {
        GenerateStream {
            request_id,
            model,
            return_logprob,
            accumulated_text: String::new(),
            completion_tokens: 0,
            weight_version: None,
            prompt_tokens_seen: 0,
            accumulated_output_logprobs: None,
        }
    }

    /// Begins the stream that answers a request. The model is the one that was asked for
    /// from outside, else the one that the request names. Of a request that is not one
    /// for generation the client is told so, and no more.
    pub fn start(original: &ProtocolRequest, model_id: Option<&str>, request_id: &str) -> (r:
        Result<GenerateStream, Vec<String>>)
        ensures
            match (*original, r) {
                (ProtocolRequest::Generate(req), Ok(s)) => s@ == GenerateStreamView::fresh(
                    request_id@,
                    match (model_id, req.model) {
                        (Some(model), _) => model@,
                        (None, Some(model)) => model@,
                        (None, None) => Seq::empty(),
                    },
                    req.return_logprob == Some(true),
                ),
                (ProtocolRequest::Chat(_), Err(frames)) => frames.deep_view() == closing(
                    Some("generate_streaming invoked with chat request"@),
                ),
                _ => false,
            },
    {
        match original {
            ProtocolRequest::Chat(_) => Err(
                build_error_sse("generate_streaming invoked with chat request"),
            ),
            ProtocolRequest::Generate(req) => {
                let model = match model_id {
                    Some(model) => model.to_owned(),
                    None => match &req.model {
                        Some(model) => model.clone(),
                        None => String::new(),
                    },
                };
                let return_logprob = match req.return_logprob {
                    Some(b) => b,
                    None => false,
                };
                Ok(GenerateStream::new(request_id.to_owned(), model, return_logprob))
            },
        }
    }

    fn version(&self) -> (r: String)
        ensures
            r@ == self@.version(),
    {
        match &self.weight_version {
            Some(version) => version.clone(),
            None => "default".to_owned(),
        }
    }

    /// Takes a chunk in, and gives the event that tells of it.
    pub fn on_chunk<T: Tokenizer>(&mut self, chunk: &TokenChunk, tokenizer: &T) -> (r:
        GenerateFrame)
        ensures
            final(self)@ == old(self)@.after(
                chunk.deep_view(),
                chunk_text(*tokenizer, chunk.deep_view()),
            ),
            r@ == final(self)@.event(chunk.deep_view()),
    {
        match chunk {
            TokenChunk::Partial { token_ids, logprobs } => {
                assert(token_ids@ =~= token_ids.deep_view());
                self.completion_tokens = count_on(self.completion_tokens, token_ids.len());
                if let Ok(said) = tokenizer.decode(token_ids, true) {
                    self.accumulated_text.append(said.as_str());
                }
                assert(self@.accumulated_text =~= old(self)@.accumulated_text + chunk_text(
                    *tokenizer,
                    chunk.deep_view(),
                ));
                if self.return_logprob {
                    if let Some(lp) = logprobs {
                        self.accumulated_output_logprobs = Some(output_logprobs_to_generate(lp));
                    }
                }
                let output_ids = token_ids.duplicate();
                assert(output_ids@ =~= output_ids.deep_view());
                GenerateFrame {
                    text: self.accumulated_text.clone(),
                    output_ids,
                    id: text::join2(self.request_id.as_str(), "-0"),
                    prompt_tokens: self.prompt_tokens_seen,
                    weight_version: self.version(),
                    output_token_logprobs: copy_entries(&self.accumulated_output_logprobs),
                    completion_tokens: self.completion_tokens,
                    cached_tokens: 0,
                    finish: None,
                }
            },
            TokenChunk::Complete {
                token_ids,
                finish_reason,
                usage,
                logprobs,
                input_logprobs,
                meta,
                ..
            } => {
                assert(token_ids@ =~= token_ids.deep_view());
                self.prompt_tokens_seen = usage.prompt_tokens;
                if self.weight_version.is_none() {
                    self.weight_version = meta.weight_version.duplicate();
                }
                let input_token_logprobs: Option<Vec<LogprobEntry>> = match input_logprobs {
                    Some(lp) if self.return_logprob => Some(input_logprobs_to_generate(lp)),
                    _ => None,
                };
                let output_token_logprobs: Option<Vec<LogprobEntry>> = if self.return_logprob {
                    match logprobs {
                        Some(lp) => Some(output_logprobs_to_generate(lp)),
                        None => copy_entries(&self.accumulated_output_logprobs),
                    }
                } else {
                    None
                };
                let mut output_ids: Vec<u32> = Vec::new();
                if token_ids.len() > 0 {
                    output_ids.push(token_ids[token_ids.len() - 1]);
                }
                let ghost chunk_view = chunk.deep_view();
                assert(output_ids@ =~= self@.event(chunk_view).output_ids);
                GenerateFrame {
                    text: self.accumulated_text.clone(),
                    output_ids,
                    id: text::join2(self.request_id.as_str(), "-0"),
                    prompt_tokens: usage.prompt_tokens,
                    weight_version: self.version(),
                    output_token_logprobs,
                    completion_tokens: usage.completion_tokens,
                    cached_tokens: meta.cached_tokens,
                    finish: Some(
                        FinishFields {
                            finish_reason: finish_reason_to_generate(
                                finish_reason,
                                usage.completion_tokens,
                            ),
                            input_token_logprobs,
                        },
                    ),
                }
            },
        }
    }

    /// Takes what is ready of a token stream, and sends an event for each chunk, until the
    /// client is gone. A stream that ends is told that it completed cleanly; one that
    /// fails is not.
    pub fn run_generate_stream<S: TokenSource, T: Tokenizer>(
        &mut self,
        stream: &mut TokenHandle<S>,
        tokenizer: &T,
        tx: &mut FrameSink,
    ) -> (r: StreamRun)
        requires
            old(stream).source.valid(),
        ensures
            final(stream).source.valid(),
            final(tx).open == old(tx).open,
            ({
                let before = old(stream).source.log();
                let after = final(stream).source.log();
                let polls = after.skip(before.len() as int);
                &&& before.is_prefix_of(after)
                &&& before.len() < after.len()
                &&& token_handle::gave(old(stream).source, polls, final(stream).source)
                &&& forall|i: int|
                    before.len() <= i < after.len() - 1 ==> ((
                    #[trigger] after[i]) matches StreamPoll::Item(Ok(_)))
                &&& final(self)@ == streamed(old(self)@, chunks(polls), *tokenizer)
                &&& frames_view(final(tx).frames@) == frames_view(old(tx).frames@) + (if old(
                    tx,
                ).open {
                    events(old(self)@, chunks(polls), *tokenizer)
                } else {
                    Seq::empty()
                })
                &&& !old(tx).open ==> chunks(polls.drop_last()).len() == 0
                &&& final(stream).source.completed() == (after.last() is Closed || old(
                    stream,
                ).source.completed())
                &&& match after.last() {
                    StreamPoll::Pending => r is Pending,
                    StreamPoll::Closed => r is Finished,
                    StreamPoll::Item(Err(e)) => r matches StreamRun::Failed(m) && m@ == e.text(),
                    StreamPoll::Item(Ok(chunk)) => {
                        &&& !old(tx).open
                        &&& r matches StreamRun::Failed(m)
                        &&& m@ == (if chunk is Complete {
                            "send finish"@
                        } else {
                            "send chunk"@
                        })
                    },
                }
            }),
    {
        let ghost before = stream.source.log();
        let ghost n = before.len() as int;
        let ghost start = self@;
        let ghost sent = frames_view(tx.frames@);
        assert(before.skip(n) =~= Seq::empty());
        assert(sent + Seq::<GenerateFrameView>::empty() =~= sent);
        loop
            invariant
                stream.source.valid(),
                before == old(stream).source.log(),
                n == before.len(),
                start == old(self)@,
                sent == frames_view(old(tx).frames@),
                before.is_prefix_of(stream.source.log()),
                token_handle::gave(
                    old(stream).source,
                    stream.source.log().skip(n),
                    stream.source,
                ),
                forall|i: int|
                    n <= i < stream.source.log().len() ==> ((
                    #[trigger] stream.source.log()[i]) matches StreamPoll::Item(Ok(_))),
                self@ == streamed(start, chunks(stream.source.log().skip(n)), *tokenizer),
                tx.open == old(tx).open,
                tx.open ==> frames_view(tx.frames@) == sent + events(
                    start,
                    chunks(stream.source.log().skip(n)),
                    *tokenizer,
                ),
                !tx.open ==> frames_view(tx.frames@) == sent && chunks(
                    stream.source.log().skip(n),
                ).len() == 0,
                stream.source.completed() == old(stream).source.completed(),
            decreases stream.source.budget(),
        {
            let ghost so_far = stream.source.log();
            let ghost given = stream.source;
            let polled = stream.poll_next();
            let ghost polls = stream.source.log().skip(n);
            proof {
                token_handle::lemma_gave_more(
                    old(stream).source,
                    so_far.skip(n),
                    given,
                    polled,
                    stream.source,
                );
                assert(polls =~= so_far.skip(n).push(polled));
                assert(polls.drop_last() =~= so_far.skip(n));
                assert(polls.last() == polled);
                assert(before =~= stream.source.log().take(n));
                assert(sent + Seq::<GenerateFrameView>::empty() =~= sent);
            }
            match polled {
                StreamPoll::Pending => {
                    return StreamRun::Pending;
                },
                StreamPoll::Closed => {
                    stream.mark_completed();
                    return StreamRun::Finished;
                },
                StreamPoll::Item(Err(e)) => {
                    return StreamRun::Failed(e.to_string());
                },
                StreamPoll::Item(Ok(chunk)) => {
                    let frame = self.on_chunk(&chunk, tokenizer);
                    let failure = frame.send_failure();
                    proof {
                        let all = chunks(polls);
                        assert(all.drop_last() =~= chunks(polls.drop_last()));
                        assert(all.last() == chunk.deep_view());
                        assert(sent + events(start, all, *tokenizer) =~= (sent + events(
                            start,
                            all.drop_last(),
                            *tokenizer,
                        )).push(self@.event(chunk.deep_view())));
                    }
                    if !tx.send(frame) {
                        return StreamRun::Failed(failure);
                    }
                },
            }
        }
    }
}

fn copy_entries(entries: &Option<Vec<LogprobEntry>>) -> (r: Option<Vec<LogprobEntry>>)
    ensures
        generate::entries_view(r) == generate::entries_view(*entries),
{
    match entries {
        None => None,
        Some(list) => {
            let mut out: Vec<LogprobEntry> = Vec::new();
            for i in 0..list.len()
                invariant
                    out@ =~= list@.take(i as int),
            {
                out.push(list[i]);
            }
            assert(list@.take(list@.len() as int) =~= list@);
            Some(out)
        },
    }
}

/// What is known once chunks have come, in order.
pub open spec fn streamed<T: Tokenizer>(
    start: GenerateStreamView,
    chunks: Seq<TokenChunkView>,
    tokenizer: T,
) -> GenerateStreamView
    decreases chunks.len(),
{
    if chunks.len() == 0 {
        start
    } else {
        streamed(start, chunks.drop_last(), tokenizer).after(
            chunks.last(),
            chunk_text(tokenizer, chunks.last()),
        )
    }
}

/// The texts of chunks, one after the other.
pub open spec fn texts<T: Tokenizer>(chunks: Seq<TokenChunkView>, tokenizer: T) -> Seq<char>
    decreases chunks.len(),
{
    if chunks.len() == 0 {
        Seq::empty()
    } else {
        texts(chunks.drop_last(), tokenizer) + chunk_text(tokenizer, chunks.last())
    }
}

/// How many tokens partial chunks hold.
pub open spec fn partial_tokens(chunks: Seq<TokenChunkView>) -> nat
    decreases chunks.len(),
{
    if chunks.len() == 0 {
        0
    } else {
        partial_tokens(chunks.drop_last()) + (match chunks.last() {
            TokenChunkView::Partial { token_ids, .. } => token_ids.len(),
            TokenChunkView::Complete { .. } => 0,
        })
    }
}

/// There is one event for each chunk, and it tells the whole text so far: that of all
/// chunks up to its own. The tokens of all partial chunks are counted.
pub proof fn law_event_tells_text_so_far<T: Tokenizer>(
    request_id: Seq<char>,
    model: Seq<char>,
    return_logprob: bool,
    chunks: Seq<TokenChunkView>,
    tokenizer: T,
)
    ensures
        ({
            let start = GenerateStreamView::fresh(request_id, model, return_logprob);
            let told = events(start, chunks, tokenizer);
            &&& told.len() == chunks.len()
            &&& forall|i: int|
                0 <= i < chunks.len() ==> {
                    &&& (#[trigger] told[i]).text == texts(chunks.take(i + 1), tokenizer)
                    &&& told[i].id == request_id + "-0"@
                    &&& told[i].finish is Some <==> chunks[i] is Complete
                    &&& chunks[i] is Partial && partial_tokens(chunks) <= u32::MAX
                        ==> told[i].completion_tokens == partial_tokens(chunks.take(i + 1))
                }
        }),
{
    let start = GenerateStreamView::fresh(request_id, model, return_logprob);
    let told = events(start, chunks, tokenizer);
    lemma_events(start, chunks, tokenizer);
    assert forall|i: int| 0 <= i < chunks.len() implies {
        &&& (#[trigger] told[i]).text == texts(chunks.take(i + 1), tokenizer)
        &&& told[i].id == request_id + "-0"@
        &&& told[i].finish is Some <==> chunks[i] is Complete
        &&& chunks[i] is Partial && partial_tokens(chunks) <= u32::MAX
            ==> told[i].completion_tokens == partial_tokens(chunks.take(i + 1))
    } by {
        lemma_streamed(start, chunks.take(i + 1), tokenizer);
        lemma_partial_tokens(chunks, i + 1);
        assert(start.accumulated_text + texts(chunks.take(i + 1), tokenizer) =~= texts(
            chunks.take(i + 1),
            tokenizer,
        ));
    }
}

/// The event of a chunk does not depend on later chunks.
proof fn lemma_events<T: Tokenizer>(
    start: GenerateStreamView,
    chunks: Seq<TokenChunkView>,
    tokenizer: T,
)
    ensures
        events(start, chunks, tokenizer).len() == chunks.len(),
        forall|i: int|
            0 <= i < chunks.len() ==> (#[trigger] events(start, chunks, tokenizer)[i]) == streamed(
                start,
                chunks.take(i + 1),
                tokenizer,
            ).event(chunks[i]),
    decreases chunks.len(),
{
    if chunks.len() > 0 {
        let init = chunks.drop_last();
        lemma_events(start, init, tokenizer);
        assert forall|i: int| 0 <= i < chunks.len() implies (#[trigger] events(
            start,
            chunks,
            tokenizer,
        )[i]) == streamed(start, chunks.take(i + 1), tokenizer).event(chunks[i]) by {
            if i < init.len() {
                assert(events(start, chunks, tokenizer)[i] == events(start, init, tokenizer)[i]);
                assert(init.take(i + 1) =~= chunks.take(i + 1));
            } else {
                assert(chunks.take(i + 1) =~= chunks);
            }
        }
    }
}

proof fn lemma_partial_tokens(chunks: Seq<TokenChunkView>, n: int)
    requires
        0 <= n <= chunks.len(),
    ensures
        partial_tokens(chunks.take(n)) <= partial_tokens(chunks),
    decreases chunks.len() - n,
{
    if n < chunks.len() {
        lemma_partial_tokens(chunks, n + 1);
        assert(chunks.take(n + 1).drop_last() =~= chunks.take(n));
    } else {
        assert(chunks.take(n) =~= chunks);
    }
}

proof fn lemma_streamed<T: Tokenizer>(
    start: GenerateStreamView,
    chunks: Seq<TokenChunkView>,
    tokenizer: T,
)
    ensures
        ({
            let known = streamed(start, chunks, tokenizer);
            &&& known.request_id == start.request_id
            &&& known.accumulated_text == start.accumulated_text + texts(chunks, tokenizer)
            &&& start.completion_tokens + partial_tokens(chunks) <= u32::MAX
                ==> known.completion_tokens == start.completion_tokens + partial_tokens(chunks)
        }),
    decreases chunks.len(),
{
    if chunks.len() == 0 {
        assert(start.accumulated_text + texts(chunks, tokenizer) =~= start.accumulated_text);
    } else {
        lemma_streamed(start, chunks.drop_last(), tokenizer);
        assert(start.accumulated_text + texts(chunks, tokenizer) =~= start.accumulated_text + texts(
            chunks.drop_last(),
            tokenizer,
        ) + chunk_text(tokenizer, chunks.last()));
    }
}

/// Where log probabilities were not asked for, no event tells any.
pub proof fn law_logprobs_only_on_request<T: Tokenizer>(
    request_id: Seq<char>,
    model: Seq<char>,
    chunks: Seq<TokenChunkView>,
    tokenizer: T,
)
    ensures
        ({
            let told = events(
                GenerateStreamView::fresh(request_id, model, false),
                chunks,
                tokenizer,
            );
            forall|i: int|
                0 <= i < told.len() ==> {
                    &&& (#[trigger] told[i]).output_token_logprobs is None
                    &&& told[i].finish matches Some(f) ==> f.input_token_logprobs is None
                }
        }),
{
    let start = GenerateStreamView::fresh(request_id, model, false);
    let told = events(start, chunks, tokenizer);
    lemma_events(start, chunks, tokenizer);
    assert forall|i: int| 0 <= i < told.len() implies {
        &&& (#[trigger] told[i]).output_token_logprobs is None
        &&& told[i].finish matches Some(f) ==> f.input_token_logprobs is None
    } by {
        lemma_no_logprobs(start, chunks.take(i + 1), tokenizer);
    }
}

proof fn lemma_no_logprobs<T: Tokenizer>(
    start: GenerateStreamView,
    chunks: Seq<TokenChunkView>,
    tokenizer: T,
)
    requires
        !start.return_logprob,
        start.accumulated_output_logprobs is None,
    ensures
        !streamed(start, chunks, tokenizer).return_logprob,
        streamed(start, chunks, tokenizer).accumulated_output_logprobs is None,
    decreases chunks.len(),
{
    if chunks.len() > 0 {
        lemma_no_logprobs(start, chunks.drop_last(), tokenizer);
    }
}

/// A piece of an answer adds the text of its tokens to what was told before, and its tokens to
/// the count. Its event tells its own tokens and does not end the answer.
pub proof fn law_piece_adds_its_text_and_tokens(
    known: GenerateStreamView,
    chunk: TokenChunkView,
    said: Seq<char>,
)
    requires
        chunk is Partial,
    ensures
        ({
            let after = known.after(chunk, said);
            let told = after.event(chunk);
            let ids = chunk->Partial_token_ids;
            let lp = chunk->Partial_logprobs;
            &&& told.text == known.accumulated_text + said
            &&& after.accumulated_text == known.accumulated_text + said
            &&& told.output_ids == ids
            &&& known.completion_tokens + ids.len() <= u32::MAX ==> told.completion_tokens
                == known.completion_tokens + ids.len()
            &&& after.completion_tokens == told.completion_tokens
            &&& told.finish is None
            &&& told.prompt_tokens == known.prompt_tokens_seen
            &&& told.cached_tokens == 0
            &&& known.weight_version matches Some(v) ==> told.weight_version == v
            &&& known.weight_version is None ==> told.weight_version == "default"@
            &&& told.id == known.request_id + "-0"@
            &&& after.request_id == known.request_id
            &&& after.return_logprob == known.return_logprob
            &&& after.model == known.model
            &&& after.weight_version == known.weight_version
            &&& after.prompt_tokens_seen == known.prompt_tokens_seen
            &&& told.output_token_logprobs == after.accumulated_output_logprobs
            &&& known.return_logprob && lp is Some ==> told.output_token_logprobs == Some(
                logprob_conversion::entries(lp->0.items),
            )
            &&& !known.return_logprob || lp is None ==> told.output_token_logprobs
                == known.accumulated_output_logprobs
        }),
{
}

/// The end of an answer tells what the worker told of it: its counts, its weights, why it ended
/// and, where they were asked for, its log probabilities. The text stays what it was.
pub proof fn law_end_tells_what_the_worker_told(
    known: GenerateStreamView,
    chunk: TokenChunkView,
    said: Seq<char>,
)
    requires
        chunk is Complete,
    ensures
        ({
            let after = known.after(chunk, said);
            let told = after.event(chunk);
            let ids = chunk->Complete_token_ids;
            let lp = chunk->Complete_logprobs;
            &&& told.text == known.accumulated_text
            &&& after.accumulated_text == known.accumulated_text
            &&& after.completion_tokens == known.completion_tokens
            &&& ids.len() > 0 ==> told.output_ids.len() == 1 && told.output_ids[0] == ids[ids.len()
                - 1]
            &&& ids.len() == 0 ==> told.output_ids.len() == 0
            &&& told.prompt_tokens == chunk->usage.prompt_tokens
            &&& after.prompt_tokens_seen == chunk->usage.prompt_tokens
            &&& told.completion_tokens == chunk->usage.completion_tokens
            &&& told.cached_tokens == chunk->meta.cached_tokens
            &&& known.weight_version matches Some(v) ==> told.weight_version == v
                && after.weight_version == Some(v)
            &&& known.weight_version is None ==> after.weight_version == chunk->meta.weight_version
            &&& known.weight_version is None && chunk->meta.weight_version is Some
                ==> told.weight_version == chunk->meta.weight_version->0
            &&& known.weight_version is None && chunk->meta.weight_version is None
                ==> told.weight_version == "default"@
            &&& told.id == known.request_id + "-0"@
            &&& told.finish is Some
            &&& told.finish->0.finish_reason == generate_aggregator::finish_view(
                chunk->finish_reason,
                chunk->usage.completion_tokens,
            )
            &&& told.finish->0.input_token_logprobs is Some == (known.return_logprob
                && chunk->input_logprobs is Some)
            &&& told.finish->0.input_token_logprobs is Some
                ==> told.finish->0.input_token_logprobs->0 == logprob_conversion::entries(
                chunk->input_logprobs->0.items,
            )
            &&& !known.return_logprob ==> told.output_token_logprobs is None
            &&& known.return_logprob && lp is Some ==> told.output_token_logprobs == Some(
                logprob_conversion::entries(lp->0.items),
            )
            &&& known.return_logprob && lp is None ==> told.output_token_logprobs
                == known.accumulated_output_logprobs
        }),
{
}

/// The text of a piece of an answer is what the tokenizer makes of its tokens, without special
/// ones. Tokens that it cannot decode add none.
pub proof fn law_text_of_a_piece<T: Tokenizer>(tokenizer: T, chunk: TokenChunkView)
    ensures
        chunk matches TokenChunkView::Partial { token_ids, .. } ==> {
            let decoded = tokenizer.decoding(token_ids, true);
            &&& decoded is Ok ==> chunk_text(tokenizer, chunk) == decoded->Ok_0
            &&& decoded is Err ==> chunk_text(tokenizer, chunk).len() == 0
        },
{
}

/// Each chunk that a stream gives is told of once, in the order in which they came.
pub proof fn law_each_chunk_is_told_once<T: Tokenizer>(
    start: GenerateStreamView,
    polls: Seq<StreamPoll>,
    next: StreamPoll,
    tokenizer: T,
)
    ensures
        next matches StreamPoll::Item(Ok(chunk)) ==> {
            let before = chunks(polls);
            let after = chunks(polls.push(next));
            &&& after == before.push(chunk.deep_view())
            &&& events(start, after, tokenizer).len() == events(start, before, tokenizer).len() + 1
            &&& events(start, after, tokenizer).drop_last() == events(start, before, tokenizer)
            &&& events(start, after, tokenizer).last() == streamed(
                start,
                before,
                tokenizer,
            ).after(chunk.deep_view(), chunk_text(tokenizer, chunk.deep_view())).event(
                chunk.deep_view(),
            )
        },
        !(next matches StreamPoll::Item(Ok(_))) ==> chunks(polls.push(next)) == chunks(polls),
        chunks(Seq::empty()).len() == 0,
        events(start, Seq::empty(), tokenizer).len() == 0,
{
    assert(polls.push(next).drop_last() =~= polls);
    if let StreamPoll::Item(Ok(chunk)) = next {
        let before = chunks(polls);
        let after = chunks(polls.push(next));
        assert(after.drop_last() =~= before);
        assert(events(start, after, tokenizer).drop_last() =~= events(start, before, tokenizer));
    }
}

/// A stream always ends with `[DONE]`. One that failed tells why, right before that, and one
/// that did not tells nothing more.
pub proof fn law_stream_ends_with_done(failure: Option<&str>, r: Vec<String>)
    requires
        call_ensures(closing_frames, (failure,), r),
    ensures
        r@.len() > 0,
        r@.last()@ == "data: [DONE]\n\n"@,
        failure is None ==> r@.len() == 1,
        failure matches Some(e) ==> r@.len() == 2 && r@[0]@ == "data: {\"error\": \""@ + e@
            + "\"}\n\n"@,
{
    let view = r.deep_view();
    assert(view.len() == r@.len());
    assert(view[r@.len() - 1] == r@[r@.len() - 1]@);
    assert(view[0] == r@[0]@);
}

/// A stream begins with nothing told. It is for the model that was asked for from outside, else
/// for the one that the request names, and has log probabilities where the request wants them.
pub proof fn law_stream_begins_afresh(
    original: &ProtocolRequest,
    model_id: Option<&str>,
    request_id: &str,
    r: Result<GenerateStream, Vec<String>>,
)
    requires
        call_ensures(GenerateStream::start, (original, model_id, request_id), r),
    ensures
        r is Ok == *original is Generate,
        *original matches ProtocolRequest::Generate(req) ==> {
            let s = r->Ok_0;
            &&& s.request_id@ == request_id@
            &&& s.accumulated_text@.len() == 0
            &&& s.completion_tokens == 0
            &&& s.prompt_tokens_seen == 0
            &&& s.weight_version is None
            &&& s.accumulated_output_logprobs is None
            &&& s.return_logprob == (req.return_logprob == Some(true))
            &&& model_id matches Some(m) ==> s.model@ == m@
            &&& model_id is None && req.model is Some ==> s.model@ == req.model->0@
            &&& model_id is None && req.model is None ==> s.model@.len() == 0
        },
{
    if let Ok(s) = r {
        assert(s@.weight_version is None == s.weight_version is None);
        assert(s@.accumulated_output_logprobs is None == s.accumulated_output_logprobs is None);
    }
}

proof fn lemma_frame_names()
    ensures
        "text"@ != "output_ids"@,
        "text"@ != "meta_info"@,
        "text"@ != "index"@,
        "output_ids"@ != "meta_info"@,
        "output_ids"@ != "index"@,
        "meta_info"@ != "index"@,
        "id"@.len() == 2,
        "prompt_tokens"@.len() == 13,
        "weight_version"@.len() == 14,
        "output_token_logprobs"@.len() == 21,
        "completion_tokens"@.len() == 17,
        "cached_tokens"@.len() == 13,
        "prompt_tokens"@ != "cached_tokens"@,
        "finish_reason"@.len() == 13,
        "prompt_tokens"@ != "finish_reason"@,
        "cached_tokens"@ != "finish_reason"@,
        "input_token_logprobs"@.len() == 20,
        "e2e_latency"@.len() == 11,
        "type"@ != "length"@,
{
    reveal_strlit("text");
    reveal_strlit("output_ids");
    reveal_strlit("meta_info");
    reveal_strlit("index");
    reveal_strlit("id");
    reveal_strlit("prompt_tokens");
    reveal_strlit("weight_version");
    reveal_strlit("output_token_logprobs");
    reveal_strlit("completion_tokens");
    reveal_strlit("cached_tokens");
    reveal_strlit("finish_reason");
    reveal_strlit("input_token_logprobs");
    reveal_strlit("e2e_latency");
    reveal_strlit("type");
    reveal_strlit("length");
    assert("text"@.len() != "output_ids"@.len());
    assert("text"@.len() != "meta_info"@.len());
    assert("text"@.len() != "index"@.len());
    assert("output_ids"@.len() != "meta_info"@.len());
    assert("output_ids"@.len() != "index"@.len());
    assert("meta_info"@.len() != "index"@.len());
    assert("prompt_tokens"@[0] != "cached_tokens"@[0]);
    assert("prompt_tokens"@[0] != "finish_reason"@[0]);
    assert("cached_tokens"@[0] != "finish_reason"@[0]);
    assert("type"@.len() != "length"@.len());
}

/// Whether a field says this number.
pub open spec fn says_number(v: JsonView, name: Seq<char>, n: nat) -> bool {
    json::field(v, name) == Some(JsonView::Number(text::decimal(n)))
}

/// Whether a field says this text.
pub open spec fn says_text(v: JsonView, name: Seq<char>, said: Seq<char>) -> bool {
    json::field(v, name) == Some(JsonView::Str(said))
}

/// An event of the generation endpoint reads as the client expects it: each value stands in the
/// field of its name, and only the last event has a finish reason, the log probabilities of the
/// prompt and the time that it all took.
pub proof fn law_event_reads_as_expected(
    frame: &GenerateFrame,
    encoded: &EncodedFrameFields,
    r: Json,
)
    requires
        call_ensures(GenerateFrame::to_json, (frame, encoded), r),
    ensures
        says_text(r@, "text"@, frame.text@),
        says_number(r@, "index"@, 0),
        json::field(r@, "output_ids"@) is Some,
        json::field(r@, "output_ids"@)->0 is Array,
        json::field(r@, "output_ids"@)->0->Array_0.len() == frame.output_ids@.len(),
        forall|i: int|
            0 <= i < frame.output_ids@.len() ==> #[trigger] json::field(
                r@,
                "output_ids"@,
            )->0->Array_0[i] == JsonView::Number(text::decimal(frame.output_ids@[i] as nat)),
        json::field(r@, "meta_info"@) is Some,
        ({
            let info = json::field(r@, "meta_info"@)->0;
            let reason = json::field(info, "finish_reason"@);
            &&& says_text(info, "id"@, frame.id@)
            &&& says_number(info, "prompt_tokens"@, frame.prompt_tokens as nat)
            &&& says_number(info, "completion_tokens"@, frame.completion_tokens as nat)
            &&& says_number(info, "cached_tokens"@, frame.cached_tokens as nat)
            &&& says_text(info, "weight_version"@, frame.weight_version@)
            &&& json::field(info, "output_token_logprobs"@) == Some(encoded.output_token_logprobs@)
            &&& frame.finish is None ==> {
                &&& reason == Some(JsonView::Null)
                &&& json::field(info, "input_token_logprobs"@) is None
                &&& json::field(info, "e2e_latency"@) is None
            }
            &&& frame.finish matches Some(f) ==> {
                &&& json::field(info, "input_token_logprobs"@) == Some(
                    encoded.input_token_logprobs@,
                )
                &&& json::field(info, "e2e_latency"@) == Some(encoded.e2e_latency@)
                &&& reason is Some
                &&& match f.finish_reason {
                    GenerateFinishReason::Stop => says_text(reason->0, "type"@, "stop"@),
                    GenerateFinishReason::Length { length } => says_text(
                        reason->0,
                        "type"@,
                        "length"@,
                    ) && says_number(reason->0, "length"@, length as nat),
                    GenerateFinishReason::Other(v) => reason->0 == v@,
                }
            }
        }),
{
    lemma_frame_names();
    let ids = frame.output_ids@.map_values(|id: u32| num(id as nat));
    assert(json::field(r@, "output_ids"@) == Some(JsonView::Array(ids)));
    assert forall|i: int| 0 <= i < ids.len() implies #[trigger] ids[i] == JsonView::Number(
        text::decimal(frame.output_ids@[i] as nat),
    ) by {}
}

/// A server-sent event of the generation endpoint carries its JSON on one line of data.
pub proof fn law_event_is_carried_as_data(
    frame: &GenerateFrame,
    encoded: &EncodedFrameFields,
    r: String,
    v: Json,
)
    requires
        call_ensures(GenerateFrame::to_sse, (frame, encoded), r),
        call_ensures(GenerateFrame::to_json, (frame, encoded), v),
    ensures
        r@ == "data: "@ + json::written(v@) + "\n\n"@,
{
}

/// An event is sent behind those that were sent before, unless the client is gone.
pub proof fn law_event_is_sent_behind_the_others(
    tx: &mut FrameSink,
    frame: GenerateFrame,
    sent: bool,
)
    requires
        call_ensures(FrameSink::send, (tx, frame), sent),
    ensures
        sent == old(tx).open,
        final(tx).open == old(tx).open,
        !sent ==> final(tx).frames@.len() == old(tx).frames@.len(),
        sent ==> final(tx).frames@.len() == old(tx).frames@.len() + 1 && final(tx).frames@.last()@
            == frame@,
        forall|i: int|
            0 <= i < old(tx).frames@.len() ==> (#[trigger] final(tx).frames@[i])@ == old(
                tx,
            ).frames@[i]@,
{
    let before = frames_view(old(tx).frames@);
    let after = frames_view(final(tx).frames@);
    assert(before.len() == old(tx).frames@.len());
    assert(after.len() == final(tx).frames@.len());
    if sent {
        assert(after[before.len() as int] == frame@);
    }
    assert forall|i: int| 0 <= i < old(tx).frames@.len() implies (#[trigger] final(tx).frames@[i])@ == old(tx).frames@[i]@ by {
        assert(after[i] == before[i]);
    }
}

/// A piece of an answer adds what the tokenizer makes of its tokens to the text so far, which
/// its event tells, with its own tokens.
pub proof fn law_taken_piece_is_told<T: Tokenizer>(
    stream: &mut GenerateStream,
    chunk: &TokenChunk,
    tokenizer: &T,
    r: GenerateFrame,
)
    requires
        call_ensures(GenerateStream::on_chunk::<T>, (stream, chunk, tokenizer), r),
    ensures
        *chunk matches TokenChunk::Partial { token_ids, logprobs } ==> {
            let decoded = tokenizer.decoding(token_ids@, true);
            &&& decoded is Ok ==> r.text@ == old(stream).accumulated_text@ + decoded->Ok_0
            &&& decoded is Err ==> r.text@ == old(stream).accumulated_text@
            &&& r.output_ids@ == token_ids@
            &&& r.finish is None
        },
        *chunk matches TokenChunk::Complete { token_ids, finish_reason, usage, meta, .. } ==> {
            &&& r.text@ == old(stream).accumulated_text@
            &&& token_ids@.len() > 0 ==> r.output_ids@.len() == 1 && r.output_ids@[0]
                == token_ids@.last()
            &&& token_ids@.len() == 0 ==> r.output_ids@.len() == 0
            &&& r.prompt_tokens == usage.prompt_tokens
            &&& r.completion_tokens == usage.completion_tokens
            &&& r.cached_tokens == meta.cached_tokens
            &&& r.finish matches Some(f)
            &&& generate_aggregator::tells_reason(
                f.finish_reason,
                finish_reason,
                usage.completion_tokens,
            )
        },
        final(stream).accumulated_text@ == r.text@,
        r.id@ == old(stream).request_id@ + "-0"@,
        final(stream).request_id@ == old(stream).request_id@,
        final(stream).return_logprob == old(stream).return_logprob,
{
    let known = old(stream)@;
    let view = chunk.deep_view();
    let said = chunk_text(*tokenizer, view);
    law_text_of_a_piece(*tokenizer, view);
    match *chunk {
        TokenChunk::Partial { token_ids, logprobs } => {
            law_piece_adds_its_text_and_tokens(known, view, said);
            assert(view->Partial_token_ids =~= token_ids@);
            let decoded = tokenizer.decoding(token_ids@, true);
            if decoded is Err {
                assert(known.accumulated_text + said =~= known.accumulated_text);
            }
        },
        TokenChunk::Complete { token_ids, finish_reason, .. } => {
            law_end_tells_what_the_worker_told(known, view, said);
            assert(view->Complete_token_ids =~= token_ids@);
            assert(r@.finish->0.finish_reason == r.finish->0.finish_reason@);
        },
    }
}

/// The events that a run sends are those of the chunks that the stream gave during it, behind
/// what was sent before. The stream is told of its completion if and only if it ended; a
/// failure is told in its own words.
pub proof fn law_run_sends_an_event_for_each_chunk<S: TokenSource, T: Tokenizer>(
    this: &mut GenerateStream,
    stream: &mut TokenHandle<S>,
    tokenizer: &T,
    tx: &mut FrameSink,
    r: StreamRun,
)
    requires
        call_ensures(
            GenerateStream::run_generate_stream::<S, T>,
            (this, stream, tokenizer, tx),
            r,
        ),
    ensures
        ({
            let before = old(stream).source.log();
            let after = final(stream).source.log();
            let polls = after.skip(before.len() as int);
            &&& before.len() < after.len()
            &&& before == after.take(before.len() as int)
            &&& old(tx).open ==> final(tx).frames@.len() == old(tx).frames@.len() + chunks(
                polls,
            ).len()
            &&& !old(tx).open ==> final(tx).frames@.len() == old(tx).frames@.len()
            &&& old(tx).open ==> frames_view(final(tx).frames@) == frames_view(old(tx).frames@)
                + events(old(this)@, chunks(polls), *tokenizer)
            &&& final(this)@ == streamed(old(this)@, chunks(polls), *tokenizer)
            &&& r is Finished <==> after.last() is Closed
            &&& r is Pending <==> after.last() is Pending
            &&& r is Finished ==> final(stream).source.completed()
            &&& !(r is Finished) ==> final(stream).source.completed() == old(
                stream,
            ).source.completed()
            &&& after.last() matches StreamPoll::Item(Err(e)) ==> (r matches StreamRun::Failed(m)
                && m@ == e.text())
            &&& (after.last() matches StreamPoll::Item(Ok(_))) ==> !old(tx).open && r is Failed
        }),
{
    let before = old(stream).source.log();
    let after = final(stream).source.log();
    let polls = after.skip(before.len() as int);
    let sent = frames_view(old(tx).frames@);
    let now = frames_view(final(tx).frames@);
    assert(sent.len() == old(tx).frames@.len());
    assert(now.len() == final(tx).frames@.len());
    lemma_as_many_events(old(this)@, chunks(polls), *tokenizer);
    assert(before =~= after.take(before.len() as int));
}

proof fn lemma_as_many_events<T: Tokenizer>(
    start: GenerateStreamView,
    chunks: Seq<TokenChunkView>,
    tokenizer: T,
)
    ensures
        events(start, chunks, tokenizer).len() == chunks.len(),
    decreases chunks.len(),
{
    if chunks.len() > 0 {
        lemma_as_many_events(start, chunks.drop_last(), tokenizer);
    }
}

/// Why generation ended is told by its type, and with the number of tokens where they ran out.
/// What could not be sent is told by what it was, and a stream that fails from the start says
/// so and ends.
pub proof fn law_reason_and_failures_are_told(
    reason: &GenerateFinishReason,
    told: Json,
    frame: &GenerateFrame,
    lost: String,
    message: &str,
    frames: Vec<String>,
    closed: Vec<String>,
)
    requires
        call_ensures(reason_json, (reason,), told),
        call_ensures(GenerateFrame::send_failure, (frame,), lost),
        call_ensures(build_error_sse, (message,), frames),
        call_ensures(closing_frames, (Some(message),), closed),
    ensures
        *reason is Stop ==> json::field(told@, "type"@) == Some(JsonView::Str("stop"@)),
        *reason matches GenerateFinishReason::Length { length } ==> json::field(told@, "type"@)
            == Some(JsonView::Str("length"@)) && json::field(told@, "length"@) == Some(
            JsonView::Number(text::decimal(length as nat)),
        ),
        *reason matches GenerateFinishReason::Other(v) ==> told@ == v@,
        frame.finish is Some ==> lost@ == "send finish"@,
        frame.finish is None ==> lost@ == "send chunk"@,
        frames.deep_view() == closed.deep_view(),
{
    reveal_strlit("type");
    reveal_strlit("length");
    assert("type"@.len() != "length"@.len());
}

} // verus!

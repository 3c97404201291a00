//! Unified enums over the messages of the SGLang and vLLM backends, so that the router
//! can work with either.

use vstd::prelude::*;

use super::proto::SglangEmbedComplete;
use super::proto::SglangEmbedError;
use super::proto::SglangEmbedRequest;
use super::proto::SglangEmbedRequestView;
use super::proto::SglangEmbedResponse;
use super::proto::SglangEmbedResult;
use super::proto::SglangGenerateComplete;
use super::proto::SglangGenerateError;
use super::proto::SglangGenerateRequest;
use super::proto::SglangGenerateRequestView;
use super::proto::SglangGenerateResponse;
use super::proto::SglangGenerateStreamChunk;
use super::proto::SglangInputLogProbs;
use super::proto::SglangMatchedStop;
use super::proto::SglangOutputLogProbs;
use super::proto::SglangResponse;
use super::proto::VllmGenerateComplete;
use super::proto::VllmGenerateRequest;
use super::proto::VllmGenerateRequestView;
use super::proto::VllmGenerateResponse;
use super::proto::VllmGenerateStreamChunk;
use super::proto::VllmResponse;
use crate::duplicate::Duplicate;
use crate::float::F32;

verus! {

#[derive(Debug)]
pub enum ProtoRequest {
    Generate(ProtoGenerateRequest),
}

impl ProtoRequest {
    pub fn request_id(&self) -> (r: &str)
        ensures
            r@ == (match *self {
                ProtoRequest::Generate(req) => req.id(),
            }),
    {
        match self {
            ProtoRequest::Generate(req) => req.request_id(),
        }
    }
}

#[derive(Debug)]
pub enum ProtoGenerateRequest {
    Sglang(Box<SglangGenerateRequest>),
    Vllm(Box<VllmGenerateRequest>),
}

/// What a request says.
pub enum ProtoGenerateRequestView {
    Sglang(SglangGenerateRequestView),
    Vllm(VllmGenerateRequestView),
}

impl DeepView for ProtoGenerateRequest {
    type V = ProtoGenerateRequestView;

    open spec fn deep_view(&self) -> ProtoGenerateRequestView {
        match *self {
            ProtoGenerateRequest::Sglang(req) => ProtoGenerateRequestView::Sglang(req.deep_view()),
            ProtoGenerateRequest::Vllm(req) => ProtoGenerateRequestView::Vllm(req.deep_view()),
        }
    }
}

impl ProtoGenerateRequest {
    pub open spec fn id(self) -> Seq<char> {
        match self {
            ProtoGenerateRequest::Sglang(req) => req.request_id@,
            ProtoGenerateRequest::Vllm(req) => req.request_id@,
        }
    }

    pub fn as_sglang(&self) -> (r: &SglangGenerateRequest)
        requires
            *self is Sglang,
        ensures
            *r == *self->Sglang_0,
    {
        match self {
            ProtoGenerateRequest::Sglang(x) => x,
            _ => vstd::pervasive::unreached(),
        }
    }

    pub fn as_sglang_mut(&mut self) -> (r: &mut SglangGenerateRequest)
        requires
            *old(self) is Sglang,
        ensures
            *r == *old(self)->Sglang_0,
            *final(self) == ProtoGenerateRequest::Sglang(Box::new(*final(r))),
    {
        match self {
            ProtoGenerateRequest::Sglang(x) => x,
            _ => vstd::pervasive::unreached(),
        }
    }

    pub fn as_vllm(&self) -> (r: &VllmGenerateRequest)
        requires
            *self is Vllm,
        ensures
            *r == *self->Vllm_0,
    {
        match self {
            ProtoGenerateRequest::Vllm(x) => x,
            _ => vstd::pervasive::unreached(),
        }
    }

    pub fn as_vllm_mut(&mut self) -> (r: &mut VllmGenerateRequest)
        requires
            *old(self) is Vllm,
        ensures
            *r == *old(self)->Vllm_0,
            *final(self) == ProtoGenerateRequest::Vllm(Box::new(*final(r))),
    {
        match self {
            ProtoGenerateRequest::Vllm(x) => x,
            _ => vstd::pervasive::unreached(),
        }
    }

    pub fn is_sglang(&self) -> (r: bool)
        ensures
            r == (*self is Sglang),
    {
        match self {
            ProtoGenerateRequest::Sglang(_) => true,
            _ => false,
        }
    }

    pub fn is_vllm(&self) -> (r: bool)
        ensures
            r == (*self is Vllm),
    {
        match self {
            ProtoGenerateRequest::Vllm(_) => true,
            _ => false,
        }
    }

    pub fn clone_inner(&self) -> (r: Self)
        ensures
            r.deep_view() == self.deep_view(),
    {
        match self {
            ProtoGenerateRequest::Sglang(req) => ProtoGenerateRequest::Sglang(
                Box::new(req.duplicate()),
            ),
            ProtoGenerateRequest::Vllm(req) => ProtoGenerateRequest::Vllm(Box::new(req.duplicate())),
        }
    }

    pub fn request_id(&self) -> (r: &str)
        ensures
            r@ == self.id(),
    {
        match self {
            ProtoGenerateRequest::Sglang(req) => req.request_id.as_str(),
            ProtoGenerateRequest::Vllm(req) => req.request_id.as_str(),
        }
    }
}

#[derive(Debug)]
pub enum ProtoGenerateResponse {
    Sglang(Box<SglangGenerateResponse>),
    Vllm(VllmGenerateResponse),
}

impl ProtoGenerateResponse {
    /// What the message says.
    pub open spec fn variant(self) -> ProtoResponseVariant {
        match self {
            ProtoGenerateResponse::Sglang(resp) => match resp.response {
                Some(SglangResponse::Chunk(c)) => ProtoResponseVariant::Chunk(
                    ProtoGenerateStreamChunk::Sglang(c),
                ),
                Some(SglangResponse::Complete(c)) => ProtoResponseVariant::Complete(
                    ProtoGenerateComplete::Sglang(c),
                ),
                Some(SglangResponse::Error(e)) => ProtoResponseVariant::Error(
                    ProtoGenerateError::Sglang(e),
                ),
                None => ProtoResponseVariant::Nothing,
            },
            ProtoGenerateResponse::Vllm(resp) => match resp.response {
                Some(VllmResponse::Chunk(c)) => ProtoResponseVariant::Chunk(
                    ProtoGenerateStreamChunk::Vllm(c),
                ),
                Some(VllmResponse::Complete(c)) => ProtoResponseVariant::Complete(
                    ProtoGenerateComplete::Vllm(c),
                ),
                None => ProtoResponseVariant::Nothing,
            },
        }
    }

    pub fn into_response(self) -> (r: ProtoResponseVariant)
        ensures
            r == self.variant(),
    {
        match self {
            ProtoGenerateResponse::Sglang(resp) => match resp.response {
                Some(SglangResponse::Chunk(c)) => ProtoResponseVariant::Chunk(
                    ProtoGenerateStreamChunk::Sglang(c),
                ),
                Some(SglangResponse::Complete(c)) => ProtoResponseVariant::Complete(
                    ProtoGenerateComplete::Sglang(c),
                ),
                Some(SglangResponse::Error(e)) => ProtoResponseVariant::Error(
                    ProtoGenerateError::Sglang(e),
                ),
                None => ProtoResponseVariant::Nothing,
            },
            ProtoGenerateResponse::Vllm(resp) => match resp.response {
                Some(VllmResponse::Chunk(c)) => ProtoResponseVariant::Chunk(
                    ProtoGenerateStreamChunk::Vllm(c),
                ),
                Some(VllmResponse::Complete(c)) => ProtoResponseVariant::Complete(
                    ProtoGenerateComplete::Vllm(c),
                ),
                None => ProtoResponseVariant::Nothing,
            },
        }
    }
}

#[derive(Debug)]
pub enum ProtoResponseVariant {
    Chunk(ProtoGenerateStreamChunk),
    Complete(ProtoGenerateComplete),
    Error(ProtoGenerateError),
    /// A message without content.
    Nothing,
}

#[derive(Debug)]
pub enum ProtoGenerateStreamChunk {
    Sglang(SglangGenerateStreamChunk),
    Vllm(VllmGenerateStreamChunk),
}

impl ProtoGenerateStreamChunk {
    pub fn as_sglang(&self) -> (r: &SglangGenerateStreamChunk)
        requires
            *self is Sglang,
        ensures
            *r == self->Sglang_0,
    {
        match self {
            ProtoGenerateStreamChunk::Sglang(x) => x,
            _ => vstd::pervasive::unreached(),
        }
    }

    pub fn as_vllm(&self) -> (r: &VllmGenerateStreamChunk)
        requires
            *self is Vllm,
        ensures
            *r == self->Vllm_0,
    {
        match self {
            ProtoGenerateStreamChunk::Vllm(x) => x,
            _ => vstd::pervasive::unreached(),
        }
    }

    pub fn is_sglang(&self) -> (r: bool)
        ensures
            r == (*self is Sglang),
    {
        match self {
            ProtoGenerateStreamChunk::Sglang(_) => true,
            _ => false,
        }
    }

    pub fn is_vllm(&self) -> (r: bool)
        ensures
            r == (*self is Vllm),
    {
        match self {
            ProtoGenerateStreamChunk::Vllm(_) => true,
            _ => false,
        }
    }

    pub fn token_ids(&self) -> (r: &Vec<u32>)
        ensures
            *r == (match *self {
                ProtoGenerateStreamChunk::Sglang(c) => c.token_ids,
                ProtoGenerateStreamChunk::Vllm(c) => c.token_ids,
            }),
    {
        match self {
            ProtoGenerateStreamChunk::Sglang(c) => &c.token_ids,
            ProtoGenerateStreamChunk::Vllm(c) => &c.token_ids,
        }
    }

    /// vLLM gives one answer, which has index 0.
    pub fn index(&self) -> (r: u32)
        ensures
            r == (match *self {
                ProtoGenerateStreamChunk::Sglang(c) => c.index,
                ProtoGenerateStreamChunk::Vllm(_) => 0,
            }),
    {
        match self {
            ProtoGenerateStreamChunk::Sglang(c) => c.index,
            ProtoGenerateStreamChunk::Vllm(_) => 0,
        }
    }

    /// SGLang only.
    pub fn output_logprobs(&self) -> (r: Option<&SglangOutputLogProbs>)
        ensures
            r == (match *self {
                ProtoGenerateStreamChunk::Sglang(c) => match c.output_logprobs {
                    Some(lp) => Some(&lp),
                    None => None,
                },
                ProtoGenerateStreamChunk::Vllm(_) => None,
            }),
    {
        match self {
            ProtoGenerateStreamChunk::Sglang(c) => c.output_logprobs.as_ref(),
            ProtoGenerateStreamChunk::Vllm(_) => None,
        }
    }

    pub fn prompt_tokens(&self) -> (r: i32)
        ensures
            r == (match *self {
                ProtoGenerateStreamChunk::Sglang(c) => c.prompt_tokens,
                ProtoGenerateStreamChunk::Vllm(c) => c.prompt_tokens as i32,
            }),
    {
        match self {
            ProtoGenerateStreamChunk::Sglang(c) => c.prompt_tokens,
            ProtoGenerateStreamChunk::Vllm(c) => c.prompt_tokens as i32,
        }
    }

    pub fn completion_tokens(&self) -> (r: i32)
        ensures
            r == (match *self {
                ProtoGenerateStreamChunk::Sglang(c) => c.completion_tokens,
                ProtoGenerateStreamChunk::Vllm(c) => c.completion_tokens as i32,
            }),
    {
        match self {
            ProtoGenerateStreamChunk::Sglang(c) => c.completion_tokens,
            ProtoGenerateStreamChunk::Vllm(c) => c.completion_tokens as i32,
        }
    }

    pub fn cached_tokens(&self) -> (r: i32)
        ensures
            r == (match *self {
                ProtoGenerateStreamChunk::Sglang(c) => c.cached_tokens,
                ProtoGenerateStreamChunk::Vllm(c) => c.cached_tokens as i32,
            }),
    {
        match self {
            ProtoGenerateStreamChunk::Sglang(c) => c.cached_tokens,
            ProtoGenerateStreamChunk::Vllm(c) => c.cached_tokens as i32,
        }
    }
}

#[derive(Debug)]
pub enum ProtoGenerateComplete {
    Sglang(SglangGenerateComplete),
    Vllm(VllmGenerateComplete),
}

impl ProtoGenerateComplete {
    pub fn as_sglang(&self) -> (r: &SglangGenerateComplete)
        requires
            *self is Sglang,
        ensures
            *r == self->Sglang_0,
    {
        match self {
            ProtoGenerateComplete::Sglang(x) => x,
            _ => vstd::pervasive::unreached(),
        }
    }

    pub fn as_sglang_mut(&mut self) -> (r: &mut SglangGenerateComplete)
        requires
            *old(self) is Sglang,
        ensures
            *r == old(self)->Sglang_0,
            *final(self) == ProtoGenerateComplete::Sglang(*final(r)),
    {
        match self {
            ProtoGenerateComplete::Sglang(x) => x,
            _ => vstd::pervasive::unreached(),
        }
    }

    pub fn as_vllm(&self) -> (r: &VllmGenerateComplete)
        requires
            *self is Vllm,
        ensures
            *r == self->Vllm_0,
    {
        match self {
            ProtoGenerateComplete::Vllm(x) => x,
            _ => vstd::pervasive::unreached(),
        }
    }

    pub fn is_sglang(&self) -> (r: bool)
        ensures
            r == (*self is Sglang),
    {
        match self {
            ProtoGenerateComplete::Sglang(_) => true,
            _ => false,
        }
    }

    pub fn is_vllm(&self) -> (r: bool)
        ensures
            r == (*self is Vllm),
    {
        match self {
            ProtoGenerateComplete::Vllm(_) => true,
            _ => false,
        }
    }

    pub fn token_ids(&self) -> (r: &Vec<u32>)
        ensures
            *r == (match *self {
                ProtoGenerateComplete::Sglang(c) => c.output_ids,
                ProtoGenerateComplete::Vllm(c) => c.output_ids,
            }),
    {
        match self {
            ProtoGenerateComplete::Sglang(c) => &c.output_ids,
            ProtoGenerateComplete::Vllm(c) => &c.output_ids,
        }
    }

    pub fn output_ids(&self) -> (r: &Vec<u32>)
        ensures
            *r == (match *self {
                ProtoGenerateComplete::Sglang(c) => c.output_ids,
                ProtoGenerateComplete::Vllm(c) => c.output_ids,
            }),
    {
        match self {
            ProtoGenerateComplete::Sglang(c) => &c.output_ids,
            ProtoGenerateComplete::Vllm(c) => &c.output_ids,
        }
    }

    pub fn prompt_tokens(&self) -> (r: i32)
        ensures
            r == (match *self {
                ProtoGenerateComplete::Sglang(c) => c.prompt_tokens,
                ProtoGenerateComplete::Vllm(c) => c.prompt_tokens as i32,
            }),
    {
        match self {
            ProtoGenerateComplete::Sglang(c) => c.prompt_tokens,
            ProtoGenerateComplete::Vllm(c) => c.prompt_tokens as i32,
        }
    }

    pub fn completion_tokens(&self) -> (r: i32)
        ensures
            r == (match *self {
                ProtoGenerateComplete::Sglang(c) => c.completion_tokens,
                ProtoGenerateComplete::Vllm(c) => c.completion_tokens as i32,
            }),
    {
        match self {
            ProtoGenerateComplete::Sglang(c) => c.completion_tokens,
            ProtoGenerateComplete::Vllm(c) => c.completion_tokens as i32,
        }
    }

    pub fn cached_tokens(&self) -> (r: i32)
        ensures
            r == (match *self {
                ProtoGenerateComplete::Sglang(c) => c.cached_tokens,
                ProtoGenerateComplete::Vllm(c) => c.cached_tokens as i32,
            }),
    {
        match self {
            ProtoGenerateComplete::Sglang(c) => c.cached_tokens,
            ProtoGenerateComplete::Vllm(c) => c.cached_tokens as i32,
        }
    }

    pub fn finish_reason(&self) -> (r: &str)
        ensures
            r@ == (match *self {
                ProtoGenerateComplete::Sglang(c) => c.finish_reason@,
                ProtoGenerateComplete::Vllm(c) => c.finish_reason@,
            }),
    {
        match self {
            ProtoGenerateComplete::Sglang(c) => c.finish_reason.as_str(),
            ProtoGenerateComplete::Vllm(c) => c.finish_reason.as_str(),
        }
    }

    /// vLLM gives one answer, which has index 0.
    pub fn index(&self) -> (r: u32)
        ensures
            r == (match *self {
                ProtoGenerateComplete::Sglang(c) => c.index,
                ProtoGenerateComplete::Vllm(_) => 0,
            }),
    {
        match self {
            ProtoGenerateComplete::Sglang(c) => c.index,
            ProtoGenerateComplete::Vllm(_) => 0,
        }
    }

    /// SGLang only.
    pub fn matched_stop(&self) -> (r: Option<&SglangMatchedStop>)
        ensures
            r == (match *self {
                ProtoGenerateComplete::Sglang(c) => match c.matched_stop {
                    Some(x) => Some(&x),
                    None => None,
                },
                ProtoGenerateComplete::Vllm(_) => None,
            }),
    {
        match self {
            ProtoGenerateComplete::Sglang(c) => c.matched_stop.as_ref(),
            ProtoGenerateComplete::Vllm(_) => None,
        }
    }

    /// SGLang only.
    pub fn input_logprobs(&self) -> (r: Option<&SglangInputLogProbs>)
        ensures
            r == (match *self {
                ProtoGenerateComplete::Sglang(c) => match c.input_logprobs {
                    Some(x) => Some(&x),
                    None => None,
                },
                ProtoGenerateComplete::Vllm(_) => None,
            }),
    {
        match self {
            ProtoGenerateComplete::Sglang(c) => c.input_logprobs.as_ref(),
            ProtoGenerateComplete::Vllm(_) => None,
        }
    }

    /// SGLang only.
    pub fn output_logprobs(&self) -> (r: Option<&SglangOutputLogProbs>)
        ensures
            r == (match *self {
                ProtoGenerateComplete::Sglang(c) => match c.output_logprobs {
                    Some(x) => Some(&x),
                    None => None,
                },
                ProtoGenerateComplete::Vllm(_) => None,
            }),
    {
        match self {
            ProtoGenerateComplete::Sglang(c) => c.output_logprobs.as_ref(),
            ProtoGenerateComplete::Vllm(_) => None,
        }
    }
}

/// vLLM reports its failures as gRPC statuses.
#[derive(Debug)]
pub enum ProtoGenerateError {
    Sglang(SglangGenerateError),
}

impl ProtoGenerateError {
    pub open spec fn text(self) -> Seq<char> {
        match self {
            ProtoGenerateError::Sglang(e) => e.message@,
        }
    }

    pub fn message(&self) -> (r: &str)
        ensures
            r@ == self.text(),
    {
        match self {
            ProtoGenerateError::Sglang(e) => e.message.as_str(),
        }
    }
}

#[derive(Debug)]
pub enum ProtoEmbedRequest {
    Sglang(Box<SglangEmbedRequest>),
}

impl ProtoEmbedRequest {
    pub fn as_sglang(&self) -> (r: &SglangEmbedRequest)
        ensures
            *r == *self->Sglang_0,
    {
        match self {
            ProtoEmbedRequest::Sglang(req) => req,
        }
    }

    pub fn as_sglang_mut(&mut self) -> (r: &mut SglangEmbedRequest)
        ensures
            *r == *old(self)->Sglang_0,
            *final(self) == ProtoEmbedRequest::Sglang(Box::new(*final(r))),
    {
        match self {
            ProtoEmbedRequest::Sglang(req) => req,
        }
    }

    pub fn is_sglang(&self) -> (r: bool)
        ensures
            r == (*self is Sglang),
    {
        match self {
            ProtoEmbedRequest::Sglang(_) => true,
        }
    }

    pub fn clone_inner(&self) -> (r: Self)
        ensures
            r->Sglang_0.deep_view() == self->Sglang_0.deep_view(),
    {
        match self {
            ProtoEmbedRequest::Sglang(req) => ProtoEmbedRequest::Sglang(Box::new(req.duplicate())),
        }
    }

    pub fn request_id(&self) -> (r: &str)
        ensures
            r@ == self->Sglang_0.request_id@,
    {
        match self {
            ProtoEmbedRequest::Sglang(req) => req.request_id.as_str(),
        }
    }
}

#[derive(Debug)]
pub enum ProtoEmbedResponse {
    Sglang(SglangEmbedResponse),
}

#[derive(Debug)]
pub enum ProtoEmbedResponseVariant {
    Complete(ProtoEmbedComplete),
    Error(ProtoEmbedError),
    /// A message without content.
    Nothing,
}

impl ProtoEmbedResponse {
    pub fn into_response(self) -> (r: ProtoEmbedResponseVariant)
        ensures
            r == (match self->Sglang_0.response {
                Some(SglangEmbedResult::Complete(c)) => ProtoEmbedResponseVariant::Complete(
                    ProtoEmbedComplete::Sglang(c),
                ),
                Some(SglangEmbedResult::Error(e)) => ProtoEmbedResponseVariant::Error(
                    ProtoEmbedError::Sglang(e),
                ),
                None => ProtoEmbedResponseVariant::Nothing,
            }),
    {
        match self {
            ProtoEmbedResponse::Sglang(resp) => match resp.response {
                Some(SglangEmbedResult::Complete(c)) => ProtoEmbedResponseVariant::Complete(
                    ProtoEmbedComplete::Sglang(c),
                ),
                Some(SglangEmbedResult::Error(e)) => ProtoEmbedResponseVariant::Error(
                    ProtoEmbedError::Sglang(e),
                ),
                None => ProtoEmbedResponseVariant::Nothing,
            },
        }
    }
}

#[derive(Debug)]
pub enum ProtoEmbedComplete {
    Sglang(SglangEmbedComplete),
}

impl ProtoEmbedComplete {
    pub fn embedding(&self) -> (r: &Vec<F32>)
        ensures
            *r == self->Sglang_0.embedding,
    {
        match self {
            ProtoEmbedComplete::Sglang(c) => &c.embedding,
        }
    }

    pub fn prompt_tokens(&self) -> (r: i32)
        ensures
            r == self->Sglang_0.prompt_tokens,
    {
        match self {
            ProtoEmbedComplete::Sglang(c) => c.prompt_tokens,
        }
    }

    pub fn cached_tokens(&self) -> (r: i32)
        ensures
            r == self->Sglang_0.cached_tokens,
    {
        match self {
            ProtoEmbedComplete::Sglang(c) => c.cached_tokens,
        }
    }

    pub fn embedding_dim(&self) -> (r: i32)
        ensures
            r == self->Sglang_0.embedding_dim,
    {
        match self {
            ProtoEmbedComplete::Sglang(c) => c.embedding_dim,
        }
    }
}

#[derive(Debug)]
pub enum ProtoEmbedError {
    Sglang(SglangEmbedError),
}

impl ProtoEmbedError {
    pub fn message(&self) -> (r: &str)
        ensures
            r@ == self->Sglang_0.message@,
    {
        match self {
            ProtoEmbedError::Sglang(e) => e.message.as_str(),
        }
    }

    pub fn code(&self) -> (r: &str)
        ensures
            r@ == self->Sglang_0.code@,
    {
        match self {
            ProtoEmbedError::Sglang(e) => e.code.as_str(),
        }
    }
}

/// A message is read for what it is, whichever backend sent it: a chunk, a completion, an error
/// or nothing, each with all that it holds.
pub proof fn law_message_is_read_for_what_it_is(
    message: ProtoGenerateResponse,
    r: ProtoResponseVariant,
)
    requires
        call_ensures(ProtoGenerateResponse::into_response, (message,), r),
    ensures
        message matches ProtoGenerateResponse::Sglang(m) ==> {
            &&& r matches ProtoResponseVariant::Chunk(c) ==> (c matches ProtoGenerateStreamChunk::Sglang(
                own,
            ) && m.response == Some(SglangResponse::Chunk(own)))
            &&& r matches ProtoResponseVariant::Complete(c) ==> (c matches ProtoGenerateComplete::Sglang(
                own,
            ) && m.response == Some(SglangResponse::Complete(own)))
            &&& r matches ProtoResponseVariant::Error(e) ==> (e matches ProtoGenerateError::Sglang(
                own,
            ) && m.response == Some(SglangResponse::Error(own)))
            &&& r is Nothing <==> m.response is None
        },
        message matches ProtoGenerateResponse::Vllm(m) ==> {
            &&& r matches ProtoResponseVariant::Chunk(c) ==> (c matches ProtoGenerateStreamChunk::Vllm(
                own,
            ) && m.response == Some(VllmResponse::Chunk(own)))
            &&& r matches ProtoResponseVariant::Complete(c) ==> (c matches ProtoGenerateComplete::Vllm(
                own,
            ) && m.response == Some(VllmResponse::Complete(own)))
            &&& !(r is Error)
            &&& r is Nothing <==> m.response is None
        },
{
}

/// A chunk tells its tokens and its counts, whichever backend sent it. vLLM has one answer and
/// no log probabilities.
pub proof fn law_chunk_tells_what_it_holds(
    chunk: &ProtoGenerateStreamChunk,
    ids: &Vec<u32>,
    index: u32,
    logprobs: Option<&SglangOutputLogProbs>,
    prompt: i32,
    completion: i32,
    cached: i32,
)
    requires
        call_ensures(ProtoGenerateStreamChunk::token_ids, (chunk,), ids),
        call_ensures(ProtoGenerateStreamChunk::index, (chunk,), index),
        call_ensures(ProtoGenerateStreamChunk::output_logprobs, (chunk,), logprobs),
        call_ensures(ProtoGenerateStreamChunk::prompt_tokens, (chunk,), prompt),
        call_ensures(ProtoGenerateStreamChunk::completion_tokens, (chunk,), completion),
        call_ensures(ProtoGenerateStreamChunk::cached_tokens, (chunk,), cached),
    ensures
        *chunk matches ProtoGenerateStreamChunk::Sglang(c) ==> {
            &&& ids@ == c.token_ids@
            &&& index == c.index
            &&& logprobs is Some <==> c.output_logprobs is Some
            &&& logprobs matches Some(lp) ==> c.output_logprobs == Some(*lp)
            &&& prompt == c.prompt_tokens
            &&& completion == c.completion_tokens
            &&& cached == c.cached_tokens
        },
        *chunk matches ProtoGenerateStreamChunk::Vllm(c) ==> {
            &&& ids@ == c.token_ids@
            &&& index == 0
            &&& logprobs is None
            &&& c.prompt_tokens <= i32::MAX ==> prompt == c.prompt_tokens
            &&& c.completion_tokens <= i32::MAX ==> completion == c.completion_tokens
            &&& c.cached_tokens <= i32::MAX ==> cached == c.cached_tokens
        },
{
}

/// A completion tells its tokens, its counts and why it ended, whichever backend sent it. vLLM
/// has one answer, no log probabilities and no stop that was matched.
pub proof fn law_completion_tells_what_it_holds(
    complete: &ProtoGenerateComplete,
    ids: &Vec<u32>,
    output: &Vec<u32>,
    index: u32,
    reason: &str,
    prompt: i32,
    completion: i32,
    cached: i32,
)
    requires
        call_ensures(ProtoGenerateComplete::token_ids, (complete,), ids),
        call_ensures(ProtoGenerateComplete::output_ids, (complete,), output),
        call_ensures(ProtoGenerateComplete::index, (complete,), index),
        call_ensures(ProtoGenerateComplete::finish_reason, (complete,), reason),
        call_ensures(ProtoGenerateComplete::prompt_tokens, (complete,), prompt),
        call_ensures(ProtoGenerateComplete::completion_tokens, (complete,), completion),
        call_ensures(ProtoGenerateComplete::cached_tokens, (complete,), cached),
    ensures
        ids@ == output@,
        *complete matches ProtoGenerateComplete::Sglang(c) ==> {
            &&& ids@ == c.output_ids@
            &&& index == c.index
            &&& reason@ == c.finish_reason@
            &&& prompt == c.prompt_tokens
            &&& completion == c.completion_tokens
            &&& cached == c.cached_tokens
        },
        *complete matches ProtoGenerateComplete::Vllm(c) ==> {
            &&& ids@ == c.output_ids@
            &&& index == 0
            &&& reason@ == c.finish_reason@
            &&& c.prompt_tokens <= i32::MAX ==> prompt == c.prompt_tokens
            &&& c.completion_tokens <= i32::MAX ==> completion == c.completion_tokens
            &&& c.cached_tokens <= i32::MAX ==> cached == c.cached_tokens
        },
{
}

/// The stop that was matched and the log probabilities of a completion are those that SGLang
/// gave.
pub proof fn law_completion_tells_its_details(
    complete: &ProtoGenerateComplete,
    stop: Option<&SglangMatchedStop>,
    input: Option<&SglangInputLogProbs>,
    output: Option<&SglangOutputLogProbs>,
)
    requires
        call_ensures(ProtoGenerateComplete::matched_stop, (complete,), stop),
        call_ensures(ProtoGenerateComplete::input_logprobs, (complete,), input),
        call_ensures(ProtoGenerateComplete::output_logprobs, (complete,), output),
    ensures
        *complete is Vllm ==> stop is None && input is None && output is None,
        *complete matches ProtoGenerateComplete::Sglang(c) ==> {
            &&& stop is Some <==> c.matched_stop is Some
            &&& stop matches Some(x) ==> c.matched_stop == Some(*x)
            &&& input is Some <==> c.input_logprobs is Some
            &&& input matches Some(x) ==> c.input_logprobs == Some(*x)
            &&& output is Some <==> c.output_logprobs is Some
            &&& output matches Some(x) ==> c.output_logprobs == Some(*x)
        },
{
}

/// A request is of one backend, and is known by the identifier that it was given.
pub proof fn law_request_is_known_by_its_identifier(
    req: &ProtoGenerateRequest,
    id: &str,
    sglang: bool,
    vllm: bool,
    copy: ProtoGenerateRequest,
    copied: &str,
)
    requires
        call_ensures(ProtoGenerateRequest::request_id, (req,), id),
        call_ensures(ProtoGenerateRequest::is_sglang, (req,), sglang),
        call_ensures(ProtoGenerateRequest::is_vllm, (req,), vllm),
        call_ensures(ProtoGenerateRequest::clone_inner, (req,), copy),
        call_ensures(ProtoGenerateRequest::request_id, (&copy,), copied),
    ensures
        sglang != vllm,
        *req matches ProtoGenerateRequest::Sglang(own) ==> sglang && id@ == own.request_id@,
        *req matches ProtoGenerateRequest::Vllm(own) ==> vllm && id@ == own.request_id@,
        copied@ == id@,
        copy is Sglang <==> *req is Sglang,
{
    match (*req, copy) {
        (ProtoGenerateRequest::Sglang(a), ProtoGenerateRequest::Sglang(b)) => {
            assert(a.deep_view().request_id == b.deep_view().request_id);
        },
        (ProtoGenerateRequest::Vllm(a), ProtoGenerateRequest::Vllm(b)) => {
            assert(a.deep_view().request_id == b.deep_view().request_id);
        },
        _ => {},
    }
}

/// What a worker says of a failure is told as it said it.
pub proof fn law_failure_is_told_as_it_was(
    generate: &ProtoGenerateError,
    embed: &ProtoEmbedError,
    message: &str,
    embed_message: &str,
    embed_code: &str,
)
    requires
        call_ensures(ProtoGenerateError::message, (generate,), message),
        call_ensures(ProtoEmbedError::message, (embed,), embed_message),
        call_ensures(ProtoEmbedError::code, (embed,), embed_code),
    ensures
        *generate matches ProtoGenerateError::Sglang(e) ==> message@ == e.message@,
        *embed matches ProtoEmbedError::Sglang(e) ==> embed_message@ == e.message@ && embed_code@
            == e.code@,
{
}

/// The answer to a request for embeddings is read for what it is, and tells what it holds.
pub proof fn law_embedding_tells_what_it_holds(
    response: ProtoEmbedResponse,
    r: ProtoEmbedResponseVariant,
    complete: &ProtoEmbedComplete,
    embedding: &Vec<F32>,
    prompt: i32,
    cached: i32,
    dim: i32,
)
    requires
        call_ensures(ProtoEmbedResponse::into_response, (response,), r),
        call_ensures(ProtoEmbedComplete::embedding, (complete,), embedding),
        call_ensures(ProtoEmbedComplete::prompt_tokens, (complete,), prompt),
        call_ensures(ProtoEmbedComplete::cached_tokens, (complete,), cached),
        call_ensures(ProtoEmbedComplete::embedding_dim, (complete,), dim),
    ensures
        response matches ProtoEmbedResponse::Sglang(m) ==> {
            &&& r matches ProtoEmbedResponseVariant::Complete(c) ==> (c matches ProtoEmbedComplete::Sglang(
                own,
            ) && m.response == Some(SglangEmbedResult::Complete(own)))
            &&& r matches ProtoEmbedResponseVariant::Error(e) ==> (e matches ProtoEmbedError::Sglang(
                own,
            ) && m.response == Some(SglangEmbedResult::Error(own)))
            &&& r is Nothing <==> m.response is None
        },
        *complete matches ProtoEmbedComplete::Sglang(c) ==> {
            &&& embedding@ == c.embedding@
            &&& prompt == c.prompt_tokens
            &&& cached == c.cached_tokens
            &&& dim == c.embedding_dim
        },
{
}

} // verus!

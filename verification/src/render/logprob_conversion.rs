//! Log probabilities as the chat and the generation endpoints tell them.

use vstd::prelude::*;
use vstd::string::StrSliceExecFns;

use crate::float::F32;
use crate::protocols::common::ChatLogProbs;
use crate::protocols::common::ChatLogProbsContent;
use crate::protocols::common::ChatLogProbsContentView;
use crate::protocols::common::ChatLogProbsView;
use crate::protocols::common::TopLogProb;
use crate::protocols::common::TopLogProbView;
use crate::protocols::generate::LogprobEntry;
use crate::text;
use crate::token_handle::token_chunk::InputLogprobs;
use crate::token_handle::token_chunk::TokenLogprob;
use crate::token_handle::token_chunk::TokenLogprobView;
use crate::token_handle::token_chunk::TokenLogprobs;
use crate::tokenizer::Tokenizer;

verus! {

/// The text of a token: what came with it, else what the tokenizer makes of it, else a
/// text that names its id.
pub open spec fn token_text<T: Tokenizer>(
    tokenizer: T,
    token_id: u32,
    decoded: Option<Seq<char>>,
) -> Seq<char> {
    match decoded {
        Some(said) => said,
        None => match tokenizer.decoding(seq![token_id], false) {
            Ok(said) => said,
            Err(_) => "<token_"@ + text::decimal(token_id as nat) + ">"@,
        },
    }
}

/// One of the most likely tokens, as the chat endpoint tells it.
pub open spec fn top_view<T: Tokenizer>(
    tokenizer: T,
    top: (u32, F32, Option<Seq<char>>),
) -> TopLogProbView {
    let token = token_text(tokenizer, top.0, top.2);
    TopLogProbView { token, logprob: top.1, bytes: Some(vstd::utf8::encode_utf8(token)) }
}

/// A token, as the chat endpoint tells it.
pub open spec fn content_view<T: Tokenizer>(
    tokenizer: T,
    item: TokenLogprobView,
) -> ChatLogProbsContentView {
    let token = token_text(tokenizer, item.token_id, item.decoded_text);
    ChatLogProbsContentView {
        token,
        logprob: item.logprob,
        bytes: Some(vstd::utf8::encode_utf8(token)),
        top_logprobs: item.top.map_values(
            |top: (u32, F32, Option<Seq<char>>)| top_view(tokenizer, top),
        ),
    }
}

fn text_of_token<T: Tokenizer>(tokenizer: &T, token_id: u32, decoded: &Option<String>) -> (r: String)
    ensures
        r@ == token_text(*tokenizer, token_id, decoded.deep_view()),
{
    if let Some(said) = decoded {
        return said.clone();
    }
    let mut ids: Vec<u32> = Vec::new();
    ids.push(token_id);
    assert(ids@ =~= seq![token_id]);
    match tokenizer.decode(&ids, false) {
        Ok(said) => said,
        Err(_) => text::join3("<token_", text::number(token_id as u128).as_str(), ">"),
    }
}

fn chat_content<T: Tokenizer>(item: &TokenLogprob, tokenizer: &T) -> (r: ChatLogProbsContent)
    ensures
        r.deep_view() == content_view(*tokenizer, item.deep_view()),
{
    let token = text_of_token(tokenizer, item.token_id, &item.decoded_text);
    let bytes = token.as_str().as_bytes_vec();
    assert(bytes.deep_view() =~= bytes@);
    let mut top_logprobs: Vec<TopLogProb> = Vec::new();
    let ghost told = content_view(*tokenizer, item.deep_view()).top_logprobs;
    for i in 0..item.top.len()
        invariant
            told == content_view(*tokenizer, item.deep_view()).top_logprobs,
            top_logprobs@.len() == i,
            forall|j: int| 0 <= j < i ==> (#[trigger] top_logprobs@[j]).deep_view() == told[j],
    {
        let top = &item.top[i];
        assert(item.deep_view().top[i as int] == top.deep_view());
        let token = text_of_token(tokenizer, top.0, &top.2);
        let bytes = token.as_str().as_bytes_vec();
        assert(bytes.deep_view() =~= bytes@);
        top_logprobs.push(TopLogProb { token, logprob: top.1, bytes: Some(bytes) });
    }
    assert(top_logprobs.deep_view() =~= told);
    ChatLogProbsContent { token, logprob: item.logprob, bytes: Some(bytes), top_logprobs }
}

/// The log probabilities as the chat endpoint tells them: each token with its text and
/// the bytes of the text. Where there are no tokens there is no content.
pub fn token_logprobs_to_chat<T: Tokenizer>(lp: &TokenLogprobs, tokenizer: &T) -> (r: ChatLogProbs)
    ensures
        r.deep_view() == (ChatLogProbsView::Detailed {
            content: if lp.items@.len() == 0 {
                None
            } else {
                Some(
                    lp.deep_view().items.map_values(
                        |item: TokenLogprobView| content_view(*tokenizer, item),
                    ),
                )
            },
        }),
{
    let ghost told = lp.deep_view().items.map_values(
        |item: TokenLogprobView| content_view(*tokenizer, item),
    );
    let mut items: Vec<ChatLogProbsContent> = Vec::new();
    for i in 0..lp.items.len()
        invariant
            told == lp.deep_view().items.map_values(
                |item: TokenLogprobView| content_view(*tokenizer, item),
            ),
            items@.len() == i,
            forall|j: int| 0 <= j < i ==> (#[trigger] items@[j]).deep_view() == told[j],
    {
        assert(lp.deep_view().items[i as int] == lp.items@[i as int].deep_view());
        items.push(chat_content(&lp.items[i], tokenizer));
    }
    assert(items.deep_view() =~= told);
    if items.len() == 0 {
        ChatLogProbs::Detailed { content: None }
    } else {
        ChatLogProbs::Detailed { content: Some(items) }
    }
}

/// Each token's log probability and id, in order.
pub open spec fn entries(items: Seq<TokenLogprobView>) -> Seq<LogprobEntry> {
    items.map_values(
        |item: TokenLogprobView| LogprobEntry { logprob: item.logprob, token_id: item.token_id },
    )
}

fn entries_of(items: &Vec<TokenLogprob>) -> (r: Vec<LogprobEntry>)
    ensures
        r@ == entries(items.deep_view()),
{
    let mut out: Vec<LogprobEntry> = Vec::new();
    for i in 0..items.len()
        invariant
            out@ =~= entries(items.deep_view().take(i as int)),
    {
        let ghost before = out@;
        out.push(LogprobEntry { logprob: items[i].logprob, token_id: items[i].token_id });
        assert(items.deep_view()[i as int] == items@[i as int].deep_view());
        assert(out@ =~= entries(items.deep_view().take(i + 1)));
    }
    assert(items.deep_view().take(items@.len() as int) =~= items.deep_view());
    out
}

/// The log probabilities of generated tokens as the generation endpoint tells them.
pub fn output_logprobs_to_generate(lp: &TokenLogprobs) -> (r: Vec<LogprobEntry>)
    ensures
        r@ == entries(lp.deep_view().items),
{
    entries_of(&lp.items)
}

/// The log probabilities of the prompt as the generation endpoint tells them.
pub fn input_logprobs_to_generate(lp: &InputLogprobs) -> (r: Vec<LogprobEntry>)
    ensures
        r@ == entries(lp.deep_view().items),
{
    entries_of(&lp.items)
}

/// Whether entries tell each token's log probability and id, in their order.
pub open spec fn tell_each(told: Seq<LogprobEntry>, items: Seq<TokenLogprob>) -> bool {
    &&& told.len() == items.len()
    &&& forall|i: int|
        0 <= i < items.len() ==> (#[trigger] told[i]).logprob == items[i].logprob
            && told[i].token_id == items[i].token_id
}

pub(crate) proof fn lemma_entries_tell_each(items: Vec<TokenLogprob>)
    ensures
        tell_each(entries(items.deep_view()), items@),
{
    let told = entries(items.deep_view());
    assert forall|i: int| 0 <= i < items@.len() implies (#[trigger] told[i]).logprob
        == items@[i].logprob && told[i].token_id == items@[i].token_id by {
        assert(items.deep_view()[i] == items@[i].deep_view());
    }
}

/// The generation endpoint tells the log probability and the id of every token, in their order.
pub proof fn law_every_logprob_is_told(
    lp: &TokenLogprobs,
    input: &InputLogprobs,
    r: Vec<LogprobEntry>,
    s: Vec<LogprobEntry>,
)
    requires
        call_ensures(output_logprobs_to_generate, (lp,), r),
        call_ensures(input_logprobs_to_generate, (input,), s),
    ensures
        tell_each(r@, lp.items@),
        tell_each(s@, input.items@),
{
    lemma_entries_tell_each(lp.items);
    lemma_entries_tell_each(input.items);
}

/// Whether this is the text of a token: what came with it, else what the tokenizer makes of it
/// alone, with special tokens, else its id.
pub open spec fn is_text_of<T: Tokenizer>(
    said: Seq<char>,
    tokenizer: T,
    token_id: u32,
    came: Option<String>,
) -> bool {
    let decoded = tokenizer.decoding(seq![token_id], false);
    &&& came matches Some(t) ==> said == t@
    &&& came is None && decoded is Ok ==> said == decoded->Ok_0
    &&& came is None && decoded is Err ==> said == "<token_"@ + text::decimal(token_id as nat)
        + ">"@
}

/// The chat endpoint tells of every token its text, the bytes of the text, its log probability,
/// and of each of the most likely tokens in its place the same.
pub proof fn law_chat_logprobs_tell_every_token<T: Tokenizer>(
    lp: &TokenLogprobs,
    tokenizer: &T,
    r: ChatLogProbs,
)
    requires
        call_ensures(token_logprobs_to_chat::<T>, (lp, tokenizer), r),
    ensures
        ({
            let content = r->Detailed_content;
            &&& content is Some == (lp.items@.len() > 0)
            &&& content is Some ==> content->0@.len() == lp.items@.len()
            &&& content is Some ==> forall|i: int|
                #![trigger content->0@[i]]
                0 <= i < lp.items@.len() ==> {
                    let told = content->0@[i];
                    let item = lp.items@[i];
                    &&& is_text_of(told.token@, *tokenizer, item.token_id, item.decoded_text)
                    &&& told.logprob == item.logprob
                    &&& told.bytes is Some
                    &&& told.bytes->0@ == vstd::utf8::encode_utf8(told.token@)
                    &&& told.top_logprobs@.len() == item.top@.len()
                    &&& forall|j: int|
                        #![trigger told.top_logprobs@[j]]
                        0 <= j < item.top@.len() ==> {
                            let top = told.top_logprobs@[j];
                            &&& is_text_of(
                                top.token@,
                                *tokenizer,
                                item.top@[j].0,
                                item.top@[j].2,
                            )
                            &&& top.logprob == item.top@[j].1
                            &&& top.bytes is Some
                            &&& top.bytes->0@ == vstd::utf8::encode_utf8(top.token@)
                        }
                }
        }),
{
    let view = r.deep_view()->Detailed_content;
    let content = r->Detailed_content;
    assert(view == content.deep_view());
    if lp.items@.len() > 0 {
        let list = content->0;
        assert(view->0 == list.deep_view());
        assert(list.deep_view().len() == list@.len());
        assert forall|i: int|
            #![trigger list@[i]]
            0 <= i < lp.items@.len() implies {
            let told = list@[i];
            let item = lp.items@[i];
            &&& is_text_of(told.token@, *tokenizer, item.token_id, item.decoded_text)
            &&& told.logprob == item.logprob
            &&& told.bytes is Some
            &&& told.bytes->0@ == vstd::utf8::encode_utf8(told.token@)
            &&& told.top_logprobs@.len() == item.top@.len()
            &&& forall|j: int|
                #![trigger told.top_logprobs@[j]]
                0 <= j < item.top@.len() ==> {
                    let top = told.top_logprobs@[j];
                    &&& is_text_of(top.token@, *tokenizer, item.top@[j].0, item.top@[j].2)
                    &&& top.logprob == item.top@[j].1
                    &&& top.bytes is Some
                    &&& top.bytes->0@ == vstd::utf8::encode_utf8(top.token@)
                }
        } by {
            let told = list@[i];
            let item = lp.items@[i];
            assert(list.deep_view()[i] == told.deep_view());
            assert(lp.deep_view().items[i] == item.deep_view());
            assert(told.deep_view() == content_view(*tokenizer, item.deep_view()));
            assert(told.bytes.deep_view() == told.deep_view().bytes);
            assert(told.bytes->0.deep_view() =~= told.bytes->0@);
            assert(told.top_logprobs.deep_view() == told.deep_view().top_logprobs);
            assert(told.top_logprobs.deep_view().len() == told.top_logprobs@.len());
            assert(item.deep_view().top.len() == item.top@.len());
            assert forall|j: int|
                #![trigger told.top_logprobs@[j]]
                0 <= j < item.top@.len() implies {
                let top = told.top_logprobs@[j];
                &&& is_text_of(top.token@, *tokenizer, item.top@[j].0, item.top@[j].2)
                &&& top.logprob == item.top@[j].1
                &&& top.bytes is Some
                &&& top.bytes->0@ == vstd::utf8::encode_utf8(top.token@)
            } by {
                let top = told.top_logprobs@[j];
                assert(told.top_logprobs.deep_view()[j] == top.deep_view());
                assert(item.deep_view().top[j] == item.top@[j].deep_view());
                assert(top.deep_view() == top_view(*tokenizer, item.top@[j].deep_view()));
                assert(top.bytes.deep_view() == top.deep_view().bytes);
                assert(top.bytes->0.deep_view() =~= top.bytes->0@);
            }
        }
    }
}

} // verus!

//! What this crate needs of tokenizers.

use vstd::hash_map::StringHashMap;
use vstd::prelude::*;

use crate::json;
use crate::json::Json;
use crate::json::JsonView;

verus! {

/// How a chat template wants the content of a message.
#[derive(Clone, Copy, Debug, PartialEq, Eq, Structural)]
pub enum ChatTemplateContentFormat {
    /// One string.
    String,
    /// A list of parts.
    OpenAI,
}

/// What a chat template is rendered with, besides the messages.
#[derive(Debug)]
pub struct ChatTemplateParams {
    pub add_generation_prompt: bool,
    pub tools: Option<Vec<Json>>,
    /// Further variables of the template.
    pub template_kwargs: Option<Vec<(String, Json)>>,
}

/// What a chat template is rendered with.
#[verifier::ext_equal]
pub struct ChatTemplateParamsView {
    pub add_generation_prompt: bool,
    pub tools: Option<Seq<JsonView>>,
    pub template_kwargs: Option<Map<Seq<char>, JsonView>>,
}

impl View for ChatTemplateParams {
    type V = ChatTemplateParamsView;

    open spec fn view(&self) -> ChatTemplateParamsView {
        ChatTemplateParamsView {
            add_generation_prompt: self.add_generation_prompt,
            tools: match self.tools {
                Some(tools) => Some(json::array_view(tools@)),
                None => None,
            },
            template_kwargs: match self.template_kwargs {
                Some(fields) => Some(json::fields_view(fields@)),
                None => None,
            },
        }
    }
}

/// A tokenizer. Its results depend on its arguments alone; what they are is up to the
/// tokenizer. One that is verified says it; for any other it stays unsaid.
pub trait Tokenizer {
    /// The token ids of a text, or what went wrong.
    open spec fn encoding(&self, said: Seq<char>, add_special_tokens: bool) -> Result<
        Seq<u32>,
        Seq<char>,
    > {
        Ok(Seq::empty())
    }

    /// The text of token ids, or what went wrong.
    open spec fn decoding(&self, ids: Seq<u32>, skip_special_tokens: bool) -> Result<
        Seq<char>,
        Seq<char>,
    > {
        Ok(Seq::empty())
    }

    /// The format that the chat template wants. There is none where the tokenizer has no
    /// chat template.
    open spec fn content_format(&self) -> Option<ChatTemplateContentFormat> {
        None
    }

    /// The prompt that the chat template makes of messages, or what went wrong.
    open spec fn rendering(&self, messages: Seq<JsonView>, params: ChatTemplateParamsView) -> Result<
        Seq<char>,
        Seq<char>,
    > {
        Ok(Seq::empty())
    }

    fn encode(&self, said: &str, add_special_tokens: bool) -> (r: Result<Vec<u32>, String>)
        ensures
            match r {
                Ok(ids) => self.encoding(said@, add_special_tokens) == Ok::<Seq<u32>, Seq<char>>(
                    ids@,
                ),
                Err(e) => self.encoding(said@, add_special_tokens) == Err::<Seq<u32>, Seq<char>>(
                    e@,
                ),
            },
    ;

    fn decode(&self, ids: &Vec<u32>, skip_special_tokens: bool) -> (r: Result<String, String>)
        ensures
            match r {
                Ok(said) => self.decoding(ids@, skip_special_tokens) == Ok::<Seq<char>, Seq<char>>(
                    said@,
                ),
                Err(e) => self.decoding(ids@, skip_special_tokens) == Err::<Seq<char>, Seq<char>>(
                    e@,
                ),
            },
    ;

    fn chat_template_content_format(&self) -> (r: Option<ChatTemplateContentFormat>)
        ensures
            r == self.content_format(),
    ;

    fn apply_chat_template(&self, messages: &Vec<Json>, params: &ChatTemplateParams) -> (r: Result<
        String,
        String,
    >)
        ensures
            match r {
                Ok(prompt) => self.rendering(json::array_view(messages@), params@) == Ok::<
                    Seq<char>,
                    Seq<char>,
                >(prompt@),
                Err(e) => self.rendering(json::array_view(messages@), params@) == Err::<
                    Seq<char>,
                    Seq<char>,
                >(e@),
            },
    ;
}

/// The tokenizers, by the models they belong to.
#[verifier::reject_recursive_types(T)]
pub struct TokenizerRegistry<T> {
    pub entries: StringHashMap<T>,
}

impl<T> View for TokenizerRegistry<T> {
    type V = Map<Seq<char>, T>;

    open spec fn view(&self) -> Map<Seq<char>, T> {
        self.entries@
    }
}

impl<T> TokenizerRegistry<T> {
    pub fn new() -> (r: Self)
        ensures
            r@ == Map::<Seq<char>, T>::empty(),
    {
        TokenizerRegistry { entries: StringHashMap::new() }
    }

    /// Makes this the tokenizer of a model.
    pub fn register(&mut self, model: String, tokenizer: T)
        ensures
            final(self)@ == old(self)@.insert(model@, tokenizer),
    {
        self.entries.insert(model, tokenizer);
    }

    pub fn get(&self, model: &str) -> (r: Option<&T>)
        ensures
            match r {
                Some(t) => self@.dom().contains(model@) && self@[model@] == *t,
                None => !self@.dom().contains(model@),
            },
    {
        self.entries.get(model)
    }
}

/// The tokenizer of a model is the one that was registered last for it; the other models keep
/// theirs.
pub proof fn law_last_registered_tokenizer_is_found<T>(
    before: TokenizerRegistry<T>,
    after: &TokenizerRegistry<T>,
    model: Seq<char>,
    tokenizer: T,
    asked: &str,
    r: Option<&T>,
    earlier: Option<&T>,
)
    requires
        after@ == before@.insert(model, tokenizer),
        call_ensures(TokenizerRegistry::<T>::get, (after, asked), r),
        call_ensures(TokenizerRegistry::<T>::get, (&before, asked), earlier),
    ensures
        asked@ == model ==> (r matches Some(t) && *t == tokenizer),
        asked@ != model ==> (r is Some <==> earlier is Some),
        asked@ != model ==> (r matches Some(t) ==> *t == *earlier->0),
{
}

/// A new registry has no tokenizer for any model.
pub proof fn law_new_registry_is_empty<T>(
    registry: &TokenizerRegistry<T>,
    asked: &str,
    r: Option<&T>,
)
    requires
        call_ensures(TokenizerRegistry::<T>::new, (), *registry),
        call_ensures(TokenizerRegistry::<T>::get, (registry, asked), r),
    ensures
        r is None,
{
}

/// A tokenizer that is registered is the one of its model from then on.
pub proof fn law_registered_tokenizer_is_found<T>(
    registry: &mut TokenizerRegistry<T>,
    model: String,
    tokenizer: T,
)
    requires
        call_ensures(TokenizerRegistry::<T>::register, (registry, model, tokenizer), ()),
    ensures
        final(registry)@.dom().contains(model@),
        final(registry)@[model@] == tokenizer,
        forall|other: Seq<char>|
            other != model@ ==> (#[trigger] final(registry)@.dom().contains(other) <==> old(
                registry,
            )@.dom().contains(other)),
        forall|other: Seq<char>|
            other != model@ && old(registry)@.dom().contains(other) ==> #[trigger] final(registry)@[other] == old(registry)@[other],
{
}

} // verus!

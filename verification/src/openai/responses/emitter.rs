//! The events of a streamed response.
//!
//! The emitter numbers the events, keeps track of the output items and makes,
//! in this order, events of the types
//! - response.created
//! - response.in_progress
//! - response.output_item.added
//! - response.content_part.added
//! - response.output_text.delta (multiple)
//! - response.output_text.done
//! - response.content_part.done
//! - response.output_item.done
//! - response.completed

use vstd::prelude::*;
use vstd::string::StringExecFns;

use crate::duplicate::Duplicate;
use crate::ids;
use crate::ids::generate_item_id;
use crate::json;
use crate::json::put;
use crate::json::Json;
use crate::json::JsonView;
use crate::protocols;
use crate::protocols::common::Encoded;
use crate::protocols::responses::ResponsesRequest;
use crate::protocols::responses::ResponsesRequestView;
use crate::text;

verus! {

/// The kinds of output items that are streamed.
#[derive(Clone, Copy, Debug, PartialEq, Eq, Structural)]
pub enum OutputItemType {
    Message,
    FunctionCall,
}

/// Status of an output item.
#[derive(Clone, Copy, Debug, PartialEq, Eq, Structural)]
pub enum ItemStatus {
    InProgress,
    Completed,
}

/// What is known of an output item.
#[derive(Debug)]
pub struct OutputItemState {
    pub output_index: usize,
    pub status: ItemStatus,
    pub item_data: Option<Json>,
}

#[verifier::ext_equal]
pub struct OutputItemStateView {
    pub output_index: usize,
    pub status: ItemStatus,
    pub item_data: Option<JsonView>,
}

impl DeepView for OutputItemState {
    type V = OutputItemStateView;

    open spec fn deep_view(&self) -> OutputItemStateView {
        OutputItemStateView {
            output_index: self.output_index,
            status: self.status,
            item_data: self.item_data.deep_view(),
        }
    }
}

/// A tool call that is being streamed.
#[derive(Debug)]
pub struct ToolCallItem {
    pub output_index: usize,
    pub item_id: String,
    pub name: String,
    pub arguments: String,
}

#[verifier::ext_equal]
pub struct ToolCallItemView {
    pub output_index: usize,
    pub item_id: Seq<char>,
    pub name: Seq<char>,
    pub arguments: Seq<char>,
}

impl DeepView for ToolCallItem {
    type V = ToolCallItemView;

    open spec fn deep_view(&self) -> ToolCallItemView {
        ToolCallItemView {
            output_index: self.output_index,
            item_id: self.item_id@,
            name: self.name@,
            arguments: self.arguments@,
        }
    }
}

/// Event emitter for `/v1/responses` streaming.
pub struct ResponseStreamEventEmitter {
    pub sequence_number: u64,
    pub response_id: String,
    pub model: String,
    pub created_at: u64,
    pub message_id: String,
    pub accumulated_text: String,
    pub has_emitted_created: bool,
    pub has_emitted_in_progress: bool,
    pub has_emitted_output_item_added: bool,
    pub has_emitted_content_part_added: bool,
    pub output_items: Vec<OutputItemState>,
    pub next_output_index: usize,
    pub current_message_output_index: Option<usize>,
    pub current_item_id: Option<String>,
    pub original_request: Option<ResponsesRequest>,
    /// The tool calls, each at the index that its deltas carry.
    pub tool_call_items: Vec<ToolCallItem>,
}

/// The state of an emitter.
#[verifier::ext_equal]
pub struct EmitterView {
    pub sequence_number: u64,
    pub response_id: Seq<char>,
    pub model: Seq<char>,
    pub created_at: u64,
    pub message_id: Seq<char>,
    pub accumulated_text: Seq<char>,
    pub has_emitted_created: bool,
    pub has_emitted_in_progress: bool,
    pub has_emitted_output_item_added: bool,
    pub has_emitted_content_part_added: bool,
    pub output_items: Seq<OutputItemStateView>,
    pub next_output_index: usize,
    pub current_message_output_index: Option<usize>,
    pub current_item_id: Option<Seq<char>>,
    pub original_request: Option<ResponsesRequestView>,
    pub tool_call_items: Seq<ToolCallItemView>,
}

impl View for ResponseStreamEventEmitter {
    type V = EmitterView;

    open spec fn view(&self) -> EmitterView {
        EmitterView {
            sequence_number: self.sequence_number,
            response_id: self.response_id@,
            model: self.model@,
            created_at: self.created_at,
            message_id: self.message_id@,
            accumulated_text: self.accumulated_text@,
            has_emitted_created: self.has_emitted_created,
            has_emitted_in_progress: self.has_emitted_in_progress,
            has_emitted_output_item_added: self.has_emitted_output_item_added,
            has_emitted_content_part_added: self.has_emitted_content_part_added,
            output_items: self.output_items.deep_view(),
            next_output_index: self.next_output_index,
            current_message_output_index: self.current_message_output_index,
            current_item_id: self.current_item_id.deep_view(),
            original_request: self.original_request.deep_view(),
            tool_call_items: self.tool_call_items.deep_view(),
        }
    }
}

/// A number as JSON.
pub open spec fn num(n: nat) -> JsonView {
    JsonView::Number(text::decimal(n))
}

/// A text as JSON.
pub open spec fn str(s: Seq<char>) -> JsonView {
    JsonView::Str(s)
}

/// The fields that events of all types start with.
pub open spec fn event_head(kind: Seq<char>, sequence: u64) -> Map<Seq<char>, JsonView> {
    Map::empty().insert("type"@, str(kind)).insert("sequence_number"@, num(sequence as nat))
}

/// The fields of an event about a content part.
pub open spec fn part_head(
    kind: Seq<char>,
    sequence: u64,
    output_index: usize,
    item_id: Seq<char>,
    content_index: usize,
) -> Map<Seq<char>, JsonView> {
    event_head(kind, sequence).insert("output_index"@, num(output_index as nat)).insert(
        "item_id"@,
        str(item_id),
    ).insert("content_index"@, num(content_index as nat))
}

/// A text part.
pub open spec fn text_part(said: Seq<char>) -> JsonView {
    JsonView::Object(Map::empty().insert("type"@, str("text"@)).insert("text"@, str(said)))
}

pub open spec fn created_event(e: EmitterView) -> JsonView {
    JsonView::Object(
        event_head("response.created"@, e.sequence_number).insert(
            "response"@,
            JsonView::Object(
                Map::empty().insert("id"@, str(e.response_id)).insert(
                    "object"@,
                    str("response"@),
                ).insert("created_at"@, num(e.created_at as nat)).insert(
                    "status"@,
                    str("in_progress"@),
                ).insert("model"@, str(e.model)).insert("output"@, JsonView::Array(Seq::empty())),
            ),
        ),
    )
}

pub open spec fn in_progress_event(e: EmitterView) -> JsonView {
    JsonView::Object(
        event_head("response.in_progress"@, e.sequence_number).insert(
            "response"@,
            JsonView::Object(
                Map::empty().insert("id"@, str(e.response_id)).insert(
                    "object"@,
                    str("response"@),
                ).insert("status"@, str("in_progress"@)),
            ),
        ),
    )
}

pub open spec fn content_part_added_event(
    e: EmitterView,
    output_index: usize,
    item_id: Seq<char>,
    content_index: usize,
) -> JsonView {
    JsonView::Object(
        part_head(
            "response.content_part.added"@,
            e.sequence_number,
            output_index,
            item_id,
            content_index,
        ).insert("part"@, text_part(""@)),
    )
}

pub open spec fn text_delta_event(
    e: EmitterView,
    delta: Seq<char>,
    output_index: usize,
    item_id: Seq<char>,
    content_index: usize,
) -> JsonView {
    JsonView::Object(
        part_head(
            "response.output_text.delta"@,
            e.sequence_number,
            output_index,
            item_id,
            content_index,
        ).insert("delta"@, str(delta)),
    )
}

pub open spec fn text_done_event(
    e: EmitterView,
    output_index: usize,
    item_id: Seq<char>,
    content_index: usize,
) -> JsonView {
    JsonView::Object(
        part_head(
            "response.output_text.done"@,
            e.sequence_number,
            output_index,
            item_id,
            content_index,
        ).insert("text"@, str(e.accumulated_text)),
    )
}

pub open spec fn content_part_done_event(
    e: EmitterView,
    output_index: usize,
    item_id: Seq<char>,
    content_index: usize,
) -> JsonView {
    JsonView::Object(
        part_head(
            "response.content_part.done"@,
            e.sequence_number,
            output_index,
            item_id,
            content_index,
        ).insert("part"@, text_part(e.accumulated_text)),
    )
}

pub open spec fn arguments_event(
    kind: Seq<char>,
    e: EmitterView,
    output_index: usize,
    item_id: Seq<char>,
    field: Seq<char>,
    said: Seq<char>,
) -> JsonView {
    JsonView::Object(
        event_head(kind, e.sequence_number).insert("output_index"@, num(output_index as nat)).insert(
            "item_id"@,
            str(item_id),
        ).insert(field, str(said)),
    )
}

pub open spec fn output_item_event(
    kind: Seq<char>,
    e: EmitterView,
    output_index: usize,
    item: JsonView,
) -> JsonView {
    JsonView::Object(
        event_head(kind, e.sequence_number).insert("output_index"@, num(output_index as nat)).insert(
            "item"@,
            item,
        ),
    )
}

impl EmitterView {
    /// An emitter that starts afresh.
    pub open spec fn fresh(
        response_id: Seq<char>,
        model: Seq<char>,
        created_at: u64,
        message_id: Seq<char>,
    ) -> EmitterView {
        EmitterView {
            sequence_number: 0,
            response_id,
            model,
            created_at,
            message_id,
            accumulated_text: Seq::empty(),
            has_emitted_created: false,
            has_emitted_in_progress: false,
            has_emitted_output_item_added: false,
            has_emitted_content_part_added: false,
            output_items: Seq::empty(),
            next_output_index: 0,
            current_message_output_index: None,
            current_item_id: None,
            original_request: None,
            tool_call_items: Seq::empty(),
        }
    }

    /// One more event was numbered.
    pub open spec fn counted(self) -> EmitterView {
        EmitterView { sequence_number: (self.sequence_number + 1) as u64, ..self }
    }

    /// The place of the first tracked item with this output index.
    pub open spec fn item_place(self, output_index: usize) -> Option<int> {
        if exists|i: int| first_with_index(self.output_items, output_index, i) {
            Some(choose|i: int| first_with_index(self.output_items, output_index, i))
        } else {
            None
        }
    }

    /// The item with this output index holds this data.
    pub open spec fn stored(self, output_index: usize, data: JsonView) -> EmitterView {
        match self.item_place(output_index) {
            Some(i) => EmitterView {
                output_items: self.output_items.update(
                    i,
                    OutputItemStateView { item_data: Some(data), ..self.output_items[i] },
                ),
                ..self
            },
            None => self,
        }
    }

    /// The item with this output index is completed.
    pub open spec fn completed(self, output_index: usize) -> EmitterView {
        match self.item_place(output_index) {
            Some(i) => EmitterView {
                output_items: self.output_items.update(
                    i,
                    OutputItemStateView { status: ItemStatus::Completed, ..self.output_items[i] },
                ),
                ..self
            },
            None => self,
        }
    }

    /// One more output item is tracked.
    pub open spec fn allocated(self) -> EmitterView {
        EmitterView {
            next_output_index: (self.next_output_index + 1) as usize,
            output_items: self.output_items.push(
                OutputItemStateView {
                    output_index: self.next_output_index,
                    status: ItemStatus::InProgress,
                    item_data: None,
                },
            ),
            ..self
        }
    }
}

/// Whether the item at this place is the first with this output index.
pub open spec fn first_with_index(
    items: Seq<OutputItemStateView>,
    output_index: usize,
    i: int,
) -> bool {
    &&& 0 <= i < items.len()
    &&& items[i].output_index == output_index
    &&& forall|j: int| 0 <= j < i ==> (#[trigger] items[j]).output_index != output_index
}

/// The prefix of the identifiers of items of a kind.
pub open spec fn id_prefix(item_type: OutputItemType) -> Seq<char> {
    match item_type {
        OutputItemType::FunctionCall => "fc"@,
        OutputItemType::Message => "msg"@,
    }
}

fn event_start(kind: &str, sequence: u64) -> (r: Vec<(String, Json)>)
    ensures
        json::fields_view(r@) == event_head(kind@, sequence),
{
    let mut fields: Vec<(String, Json)> = Vec::new();
    put(&mut fields, "type", Json::string(kind));
    put(&mut fields, "sequence_number", Json::uint(sequence));
    fields
}

fn part_start(
    kind: &str,
    sequence: u64,
    output_index: usize,
    item_id: &str,
    content_index: usize,
) -> (r: Vec<(String, Json)>)
    ensures
        json::fields_view(r@) == part_head(
            kind@,
            sequence,
            output_index,
            item_id@,
            content_index,
        ),
{
    let mut fields = event_start(kind, sequence);
    put(&mut fields, "output_index", Json::uint(output_index as u64));
    put(&mut fields, "item_id", Json::string(item_id));
    put(&mut fields, "content_index", Json::uint(content_index as u64));
    fields
}

fn make_text_part(said: &str) -> (r: Json)
    ensures
        r@ == text_part(said@),
{
    let mut fields: Vec<(String, Json)> = Vec::new();
    put(&mut fields, "type", Json::string("text"));
    put(&mut fields, "text", Json::string(said));
    Json::Object(fields)
}

impl ResponseStreamEventEmitter {
    /// An emitter that starts afresh, with this identifier for the fallback message.
    pub fn with_message_id(
        response_id: String,
        model: String,
        created_at: u64,
        message_id: String,
    ) -> (r: Self)
        ensures
            r@ == EmitterView::fresh(response_id@, model@, created_at, message_id@),
    {
        let r = ResponseStreamEventEmitter {
            sequence_number: 0,
            response_id,
            model,
            created_at,
            message_id,
            accumulated_text: String::new(),
            has_emitted_created: false,
            has_emitted_in_progress: false,
            has_emitted_output_item_added: false,
            has_emitted_content_part_added: false,
            output_items: Vec::new(),
            next_output_index: 0,
            current_message_output_index: None,
            current_item_id: None,
            original_request: None,
            tool_call_items: Vec::new(),
        };
        assert(r@.output_items =~= Seq::empty());
        assert(r@.tool_call_items =~= Seq::empty());
        r
    }

    /// An emitter that starts afresh, with a random identifier for the fallback message.
    pub fn new(response_id: String, model: String, created_at: u64) -> (r: Self)
        ensures
            exists|digits: Seq<char>|
                #![trigger ids::is_grouped_uuid(digits)]
                ids::is_grouped_uuid(digits) && r.message_id@ == "msg_"@ + digits,
            r@ == EmitterView::fresh(response_id@, model@, created_at, r.message_id@),
    {
        let digits = ids::grouped_uuid();
        let message_id = text::join2("msg_", digits.as_str());
        assert(ids::is_grouped_uuid(digits@));
        Self::with_message_id(response_id, model, created_at, message_id)
    }

    pub fn set_original_request(&mut self, request: ResponsesRequest)
        ensures
            final(self)@ == (EmitterView {
                original_request: Some(request.deep_view()),
                ..old(self)@
            }),
    {
        self.original_request = Some(request);
    }

    /// The number of the next event, which is used up.
    pub fn next_sequence(&mut self) -> (r: u64)
        requires
            old(self).sequence_number < u64::MAX,
        ensures
            r == old(self).sequence_number,
            final(self)@ == old(self)@.counted(),
    {
        let seq: u64 = self.sequence_number;
        self.sequence_number = self.sequence_number + 1;
        seq
    }

    pub fn emit_created(&mut self) -> (r: Json)
        requires
            old(self).sequence_number < u64::MAX,
        ensures
            final(self)@ == (EmitterView { has_emitted_created: true, ..old(self)@ }).counted(),
            r@ == created_event(old(self)@),
    {
        self.has_emitted_created = true;
        let mut fields = event_start("response.created", self.next_sequence());
        let mut response: Vec<(String, Json)> = Vec::new();
        put(&mut response, "id", Json::string(self.response_id.as_str()));
        put(&mut response, "object", Json::string("response"));
        put(&mut response, "created_at", Json::uint(self.created_at));
        put(&mut response, "status", Json::string("in_progress"));
        put(&mut response, "model", Json::string(self.model.as_str()));
        let none = Json::Array(Vec::new());
        assert(none@ == JsonView::Array(Seq::empty())) by {
            assert(none@->Array_0 =~= Seq::empty());
        }
        put(&mut response, "output", none);
        put(&mut fields, "response", Json::Object(response));
        Json::Object(fields)
    }

    pub fn emit_in_progress(&mut self) -> (r: Json)
        requires
            old(self).sequence_number < u64::MAX,
        ensures
            final(self)@ == (EmitterView { has_emitted_in_progress: true, ..old(self)@ }).counted(),
            r@ == in_progress_event(old(self)@),
    {
        self.has_emitted_in_progress = true;
        let mut fields = event_start("response.in_progress", self.next_sequence());
        let mut response: Vec<(String, Json)> = Vec::new();
        put(&mut response, "id", Json::string(self.response_id.as_str()));
        put(&mut response, "object", Json::string("response"));
        put(&mut response, "status", Json::string("in_progress"));
        put(&mut fields, "response", Json::Object(response));
        Json::Object(fields)
    }

    pub fn emit_content_part_added(
        &mut self,
        output_index: usize,
        item_id: &str,
        content_index: usize,
    ) -> (r: Json)
        requires
            old(self).sequence_number < u64::MAX,
        ensures
            final(self)@ == (EmitterView {
                has_emitted_content_part_added: true,
                ..old(self)@
            }).counted(),
            r@ == content_part_added_event(old(self)@, output_index, item_id@, content_index),
    {
        self.has_emitted_content_part_added = true;
        let mut fields = part_start(
            "response.content_part.added",
            self.next_sequence(),
            output_index,
            item_id,
            content_index,
        );
        put(&mut fields, "part", make_text_part(""));
        Json::Object(fields)
    }

    /// Adds to the text of the message.
    pub fn emit_text_delta(
        &mut self,
        delta: &str,
        output_index: usize,
        item_id: &str,
        content_index: usize,
    ) -> (r: Json)
        requires
            old(self).sequence_number < u64::MAX,
        ensures
            final(self)@ == (EmitterView {
                accumulated_text: old(self)@.accumulated_text + delta@,
                ..old(self)@
            }).counted(),
            r@ == text_delta_event(old(self)@, delta@, output_index, item_id@, content_index),
    {
        self.accumulated_text.append(delta);
        let mut fields = part_start(
            "response.output_text.delta",
            self.next_sequence(),
            output_index,
            item_id,
            content_index,
        );
        put(&mut fields, "delta", Json::string(delta));
        Json::Object(fields)
    }

    pub fn emit_text_done(
        &mut self,
        output_index: usize,
        item_id: &str,
        content_index: usize,
    ) -> (r: Json)
        requires
            old(self).sequence_number < u64::MAX,
        ensures
            final(self)@ == old(self)@.counted(),
            r@ == text_done_event(old(self)@, output_index, item_id@, content_index),
    {
        let mut fields = part_start(
            "response.output_text.done",
            self.next_sequence(),
            output_index,
            item_id,
            content_index,
        );
        put(&mut fields, "text", Json::string(self.accumulated_text.as_str()));
        Json::Object(fields)
    }

    pub fn emit_content_part_done(
        &mut self,
        output_index: usize,
        item_id: &str,
        content_index: usize,
    ) -> (r: Json)
        requires
            old(self).sequence_number < u64::MAX,
        ensures
            final(self)@ == old(self)@.counted(),
            r@ == content_part_done_event(old(self)@, output_index, item_id@, content_index),
    {
        let mut fields = part_start(
            "response.content_part.done",
            self.next_sequence(),
            output_index,
            item_id,
            content_index,
        );
        put(&mut fields, "part", make_text_part(self.accumulated_text.as_str()));
        Json::Object(fields)
    }

    pub fn emit_function_call_arguments_delta(
        &mut self,
        output_index: usize,
        item_id: &str,
        delta: &str,
    ) -> (r: Json)
        requires
            old(self).sequence_number < u64::MAX,
        ensures
            final(self)@ == old(self)@.counted(),
            r@ == arguments_event(
                "response.function_call_arguments.delta"@,
                old(self)@,
                output_index,
                item_id@,
                "delta"@,
                delta@,
            ),
    {
        let mut fields = event_start("response.function_call_arguments.delta", self.next_sequence());
        put(&mut fields, "output_index", Json::uint(output_index as u64));
        put(&mut fields, "item_id", Json::string(item_id));
        put(&mut fields, "delta", Json::string(delta));
        Json::Object(fields)
    }

    pub fn emit_function_call_arguments_done(
        &mut self,
        output_index: usize,
        item_id: &str,
        arguments: &str,
    ) -> (r: Json)
        requires
            old(self).sequence_number < u64::MAX,
        ensures
            final(self)@ == old(self)@.counted(),
            r@ == arguments_event(
                "response.function_call_arguments.done"@,
                old(self)@,
                output_index,
                item_id@,
                "arguments"@,
                arguments@,
            ),
    {
        let mut fields = event_start("response.function_call_arguments.done", self.next_sequence());
        put(&mut fields, "output_index", Json::uint(output_index as u64));
        put(&mut fields, "item_id", Json::string(item_id));
        put(&mut fields, "arguments", Json::string(arguments));
        Json::Object(fields)
    }

    pub fn emit_output_item_added(&mut self, output_index: usize, item: &Json) -> (r: Json)
        requires
            old(self).sequence_number < u64::MAX,
        ensures
            final(self)@ == old(self)@.counted(),
            r@ == output_item_event(
                "response.output_item.added"@,
                old(self)@,
                output_index,
                item@,
            ),
    {
        let mut fields = event_start("response.output_item.added", self.next_sequence());
        put(&mut fields, "output_index", Json::uint(output_index as u64));
        put(&mut fields, "item", item.copy());
        Json::Object(fields)
    }

    /// Stores the item, which the completion repeats.
    pub fn emit_output_item_done(&mut self, output_index: usize, item: &Json) -> (r: Json)
        requires
            old(self).sequence_number < u64::MAX,
        ensures
            final(self)@ == old(self)@.stored(output_index, item@).counted(),
            r@ == output_item_event("response.output_item.done"@, old(self)@, output_index, item@),
    {
        self.store_output_item_data(output_index, item.copy());
        let mut fields = event_start("response.output_item.done", self.next_sequence());
        put(&mut fields, "output_index", Json::uint(output_index as u64));
        put(&mut fields, "item", item.copy());
        Json::Object(fields)
    }

    /// Tracks one more item, with the next output index and this identifier.
    pub fn allocate_with_id(&mut self, id: String) -> (r: (usize, String))
        requires
            old(self).next_output_index < usize::MAX,
        ensures
            r == (old(self).next_output_index, id),
            final(self)@ == old(self)@.allocated(),
    {
        let ghost before = self.output_items.deep_view();
        let index: usize = self.next_output_index;
        self.next_output_index = self.next_output_index + 1;
        self.output_items.push(
            OutputItemState {
                output_index: index,
                status: ItemStatus::InProgress,
                item_data: None,
            },
        );
        assert(self.output_items.deep_view() =~= before.push(
            OutputItemStateView {
                output_index: index,
                status: ItemStatus::InProgress,
                item_data: None,
            },
        ));
        (index, id)
    }

    /// Tracks one more item, with the next output index and a random identifier.
    pub fn allocate_output_index(&mut self, item_type: OutputItemType) -> (r: (usize, String))
        requires
            old(self).next_output_index < usize::MAX,
        ensures
            r.0 == old(self).next_output_index,
            ids::is_item_id(r.1@, id_prefix(item_type)),
            final(self)@ == old(self)@.allocated(),
    {
        let prefix = match item_type {
            OutputItemType::FunctionCall => "fc",
            OutputItemType::Message => "msg",
        };
        let id = generate_item_id(prefix);
        self.allocate_with_id(id)
    }

    /// The place of the first tracked item with this output index.
    fn find_item(&self, output_index: usize) -> (r: Option<usize>)
        ensures
            match r {
                Some(i) => self@.item_place(output_index) == Some(i as int) && i
                    < self.output_items@.len(),
                None => self@.item_place(output_index) is None,
            },
    {
        let ghost items = self.output_items.deep_view();
        for i in 0..self.output_items.len()
            invariant
                items == self.output_items.deep_view(),
                forall|j: int| 0 <= j < i ==> (#[trigger] items[j]).output_index != output_index,
        {
            if self.output_items[i].output_index == output_index {
                proof {
                    assert(first_with_index(self@.output_items, output_index, i as int));
                    let k = self@.item_place(output_index)->0;
                    assert(first_with_index(self@.output_items, output_index, k));
                    assert(k == i) by {
                        if k < i {
                            assert(self@.output_items[k].output_index != output_index);
                        }
                        if i < k {
                            assert(self@.output_items[i as int].output_index != output_index);
                        }
                    }
                }
                return Some(i);
            }
        }
        None
    }

    pub fn complete_output_item(&mut self, output_index: usize)
        ensures
            final(self)@ == old(self)@.completed(output_index),
    {
        if let Some(i) = self.find_item(output_index) {
            let ghost before = self.output_items.deep_view();
            let ghost item = self.output_items@[i as int];
            self.output_items[i].status = ItemStatus::Completed;
            assert(self.output_items.deep_view() =~= before.update(
                i as int,
                OutputItemStateView { status: ItemStatus::Completed, ..before[i as int] },
            ));
        }
    }

    pub fn store_output_item_data(&mut self, output_index: usize, item_data: Json)
        ensures
            final(self)@ == old(self)@.stored(output_index, item_data@),
    {
        if let Some(i) = self.find_item(output_index) {
            let ghost before = self.output_items.deep_view();
            let ghost data = item_data@;
            self.output_items[i].item_data = Some(item_data);
            assert(self.output_items.deep_view() =~= before.update(
                i as int,
                OutputItemStateView { item_data: Some(data), ..before[i as int] },
            ));
        }
    }
}

/// The data of the completed items that have any, in their order.
pub open spec fn completed_items(items: Seq<OutputItemStateView>) -> Seq<JsonView>
    decreases items.len(),
{
    if items.len() == 0 {
        Seq::empty()
    } else {
        match (items.last().status, items.last().item_data) {
            (ItemStatus::Completed, Some(data)) => completed_items(items.drop_last()).push(data),
            _ => completed_items(items.drop_last()),
        }
    }
}

/// An assistant message.
pub open spec fn message_item(id: Seq<char>, content: Seq<JsonView>) -> JsonView {
    JsonView::Object(
        Map::empty().insert("id"@, str(id)).insert("type"@, str("message"@)).insert(
            "role"@,
            str("assistant"@),
        ).insert("content"@, JsonView::Array(content)),
    )
}

/// The output of a completed response: the completed items or, where none was
/// tracked, a message with the whole text.
pub open spec fn completed_output(e: EmitterView) -> Seq<JsonView> {
    if completed_items(e.output_items).len() == 0 {
        seq![message_item(e.message_id, seq![text_part(e.accumulated_text)])]
    } else {
        completed_items(e.output_items)
    }
}

/// The fields with one more, where it has a value.
pub open spec fn with_field(
    fields: Map<Seq<char>, JsonView>,
    name: Seq<char>,
    value: Option<JsonView>,
) -> Map<Seq<char>, JsonView> {
    match value {
        Some(v) => fields.insert(name, v),
        None => fields,
    }
}

pub open spec fn opt_str(s: Option<Seq<char>>) -> Option<JsonView> {
    match s {
        Some(s) => Some(str(s)),
        None => None,
    }
}

pub open spec fn opt_num(n: Option<u32>) -> Option<JsonView> {
    match n {
        Some(n) => Some(num(n as nat)),
        None => None,
    }
}

/// The value, or another where there is none.
pub open spec fn value_or(v: Option<JsonView>, other: JsonView) -> JsonView {
    match v {
        Some(v) => v,
        None => other,
    }
}

/// The fields with the settings of the request. Some are left out where the
/// request has none; the others have a default.
pub open spec fn with_request(
    fields: Map<Seq<char>, JsonView>,
    req: ResponsesRequestView,
) -> Map<Seq<char>, JsonView> {
    let m = with_field(fields, "instructions"@, opt_str(req.instructions));
    let m = with_field(m, "max_output_tokens"@, opt_num(req.max_output_tokens));
    let m = with_field(m, "max_tool_calls"@, opt_num(req.max_tool_calls));
    let m = with_field(m, "previous_response_id"@, opt_str(req.previous_response_id));
    let m = with_field(m, "reasoning"@, req.reasoning);
    let m = with_field(m, "temperature"@, protocols::responses::opt_json(req.temperature));
    let m = with_field(m, "top_p"@, protocols::responses::opt_json(req.top_p));
    let m = with_field(m, "truncation"@, req.truncation);
    let m = with_field(m, "user"@, opt_str(req.user));
    m.insert("parallel_tool_calls"@, JsonView::Bool(req.parallel_tool_calls != Some(false))).insert(
        "store"@,
        JsonView::Bool(req.store != Some(false)),
    ).insert(
        "tools"@,
        value_or(protocols::responses::opt_json(req.tools), JsonView::Array(Seq::empty())),
    ).insert(
        "metadata"@,
        value_or(req.metadata, JsonView::Object(Map::empty())),
    ).insert(
        "tool_choice"@,
        value_or(protocols::responses::opt_json(req.tool_choice), str("auto"@)),
    )
}

/// The fields of a completed response.
pub open spec fn completed_response(e: EmitterView, usage: Option<JsonView>) -> Map<
    Seq<char>,
    JsonView,
> {
    let base = Map::empty().insert("id"@, str(e.response_id)).insert(
        "object"@,
        str("response"@),
    ).insert("created_at"@, num(e.created_at as nat)).insert("status"@, str("completed"@)).insert(
        "model"@,
        str(e.model),
    ).insert("output"@, JsonView::Array(completed_output(e)));
    let used = with_field(base, "usage"@, usage);
    match e.original_request {
        Some(req) => with_request(used, req),
        None => used,
    }
}

pub open spec fn completed_event(e: EmitterView, usage: Option<JsonView>) -> JsonView {
    JsonView::Object(
        event_head("response.completed"@, e.sequence_number).insert(
            "response"@,
            JsonView::Object(completed_response(e, usage)),
        ),
    )
}

pub fn make_message_item(id: &str, content: Vec<Json>) -> (r: Json)
    ensures
        r@ == message_item(id@, json::array_view(content@)),
{
    let mut fields: Vec<(String, Json)> = Vec::new();
    put(&mut fields, "id", Json::string(id));
    put(&mut fields, "type", Json::string("message"));
    put(&mut fields, "role", Json::string("assistant"));
    put(&mut fields, "content", Json::Array(content));
    Json::Object(fields)
}

/// A message whose content is one text part.
pub fn make_text_message(id: &str, said: &str) -> (r: Json)
    ensures
        r@ == message_item(id@, seq![text_part(said@)]),
{
    let mut content: Vec<Json> = Vec::new();
    content.push(make_text_part(said));
    assert(json::array_view(content@) =~= seq![text_part(said@)]);
    make_message_item(id, content)
}

fn put_optional(fields: &mut Vec<(String, Json)>, name: &str, value: Option<Json>)
    ensures
        json::fields_view(final(fields)@) == with_field(
            json::fields_view(old(fields)@),
            name@,
            value.deep_view(),
        ),
{
    if let Some(v) = value {
        put(fields, name, v);
    }
}

fn optional_string(s: &Option<String>) -> (r: Option<Json>)
    ensures
        r.deep_view() == opt_str(s.deep_view()),
{
    match s {
        Some(s) => Some(Json::string(s.as_str())),
        None => None,
    }
}

fn optional_number(n: Option<u32>) -> (r: Option<Json>)
    ensures
        r.deep_view() == opt_num(n),
{
    match n {
        Some(n) => Some(Json::uint(n as u64)),
        None => None,
    }
}

fn optional_json<T: DeepView>(field: &Option<Encoded<T>>) -> (r: Option<Json>)
    ensures
        r.deep_view() == protocols::responses::opt_json(field.deep_view()),
{
    match field {
        Some(e) => Some(e.json.copy()),
        None => None,
    }
}

fn put_request(fields: &mut Vec<(String, Json)>, req: &ResponsesRequest)
    ensures
        json::fields_view(final(fields)@) == with_request(
            json::fields_view(old(fields)@),
            req.deep_view(),
        ),
{
    put_optional(fields, "instructions", optional_string(&req.instructions));
    put_optional(fields, "max_output_tokens", optional_number(req.max_output_tokens));
    put_optional(fields, "max_tool_calls", optional_number(req.max_tool_calls));
    put_optional(fields, "previous_response_id", optional_string(&req.previous_response_id));
    put_optional(fields, "reasoning", req.reasoning.duplicate());
    put_optional(fields, "temperature", optional_json(&req.temperature));
    put_optional(fields, "top_p", optional_json(&req.top_p));
    put_optional(fields, "truncation", req.truncation.duplicate());
    put_optional(fields, "user", optional_string(&req.user));
    put(fields, "parallel_tool_calls", Json::Bool(req.parallel_tool_calls.unwrap_or(true)));
    put(fields, "store", Json::Bool(req.store.unwrap_or(true)));
    let tools = match &req.tools {
        Some(t) => t.json.copy(),
        None => Json::Array(Vec::new()),
    };
    assert(tools@ == value_or(
        protocols::responses::opt_json(req.tools.deep_view()),
        JsonView::Array(Seq::empty()),
    )) by {
        if req.tools is None {
            assert(tools@->Array_0 =~= Seq::empty());
        }
    }
    put(fields, "tools", tools);
    let metadata = match &req.metadata {
        Some(m) => m.copy(),
        None => Json::Object(Vec::new()),
    };
    put(fields, "metadata", metadata);
    let tool_choice = match &req.tool_choice {
        Some(c) => c.json.copy(),
        None => Json::string("auto"),
    };
    put(fields, "tool_choice", tool_choice);
}

impl ResponseStreamEventEmitter {
    fn completed_data(&self) -> (r: Vec<Json>)
        ensures
            json::array_view(r@) == completed_items(self@.output_items),
    {
        let ghost all = self.output_items.deep_view();
        let mut out: Vec<Json> = Vec::new();
        assert(json::array_view(out@) =~= Seq::empty());
        for i in 0..self.output_items.len()
            invariant
                all == self.output_items.deep_view(),
                json::array_view(out@) =~= completed_items(all.take(i as int)),
        {
            let ghost before = out@;
            assert(all.take(i + 1).drop_last() =~= all.take(i as int));
            assert(all.take(i + 1).last() == all[i as int]);
            if let (ItemStatus::Completed, Some(data)) = (
                self.output_items[i].status,
                &self.output_items[i].item_data,
            ) {
                out.push(data.copy());
                proof {
                    json::lemma_array_push(before, out@.last());
                    assert(out@ =~= before.push(out@.last()));
                }
            }
        }
        assert(all.take(all.len() as int) =~= all);
        out
    }

    /// The completion of the response, with its usage and with the settings of the
    /// request where they are known.
    pub fn emit_completed(&mut self, usage: Option<&Json>) -> (r: Json)
        requires
            old(self).sequence_number < u64::MAX,
        ensures
            final(self)@ == old(self)@.counted(),
            r@ == completed_event(
                old(self)@,
                match usage {
                    Some(u) => Some(u@),
                    None => None,
                },
            ),
    {
        let mut output = self.completed_data();
        if output.len() == 0 {
            output.push(
                make_text_message(self.message_id.as_str(), self.accumulated_text.as_str()),
            );
        }
        assert(json::array_view(output@) =~= completed_output(self@));
        let mut response: Vec<(String, Json)> = Vec::new();
        put(&mut response, "id", Json::string(self.response_id.as_str()));
        put(&mut response, "object", Json::string("response"));
        put(&mut response, "created_at", Json::uint(self.created_at));
        put(&mut response, "status", Json::string("completed"));
        put(&mut response, "model", Json::string(self.model.as_str()));
        put(&mut response, "output", Json::Array(output));
        if let Some(u) = usage {
            put(&mut response, "usage", u.copy());
        }
        if let Some(req) = &self.original_request {
            put_request(&mut response, req);
        }
        let mut fields = event_start("response.completed", self.next_sequence());
        put(&mut fields, "response", Json::Object(response));
        Json::Object(fields)
    }
}

} // verus!

//! From OneBot events to messages, and from messages to OneBot requests.

use vstd::prelude::*;

use crate::domain::conversation::ConversationType;
use crate::error::RuntimeError;
use crate::json::{Json, JsonNumber, JsonView};
use crate::text::{
    chars_of, concat, find_char, find_part, i64_text, index_from, integer_text, owned, parse_i64,
    part_from, read_i64, same_text, slice_text, trim, trim_end, trimmed, trimmed_end,
};

verus! {

/// An event that came from the server.
#[derive(Debug)]
pub struct OneBotEvent {
    /// What kind of event it is.
    pub post_type: String,
    /// When it happened, in seconds since the Unix epoch.
    pub time: i64,
    /// The number of the account that received it.
    pub self_id: i64,
    /// The other fields.
    pub data: Json,
}

/// A message with the platform's names.
#[derive(Debug)]
pub struct InboundMessage {
    pub conversation_type: ConversationType,
    /// The number of the group, or of the user in a private conversation.
    pub external_conversation_id: String,
    pub external_sender_id: String,
    pub display_name: String,
    pub platform_message_id: i64,
    pub content: String,
    /// In seconds since the Unix epoch.
    pub unix_time: i64,
    /// The message points at somebody.
    pub is_mentioned: bool,
}

/// A request to the server.
#[derive(Debug)]
pub struct OutgoingRequest {
    /// What is asked for.
    pub action: String,
    pub params: Json,
}

/// The text without codes in brackets; one that is not closed reaches to the end.
pub open spec fn uncoded(s: Seq<char>) -> Seq<char>
    decreases s.len(),
{
    match part_from(s, "[CQ:"@, 0) {
        None => s,
        Some(i) => {
            let end = index_from(s, ']', i);
            if 0 <= i <= end < s.len() {
                s.take(i) + uncoded(s.skip(end + 1))
            } else {
                s.take(i)
            }
        },
    }
}

/// Removes codes in brackets, then white space at both ends.
pub fn strip_cq_codes(input: &str) -> (r: String)
    ensures
        r@ == trimmed(uncoded(input@)),
{
    let v = chars_of(input);
    let code = chars_of("[CQ:");
    let n: usize = v.len();
    let mut out = String::new();
    let mut from: usize = 0;
    assert(v@.skip(0) == v@);
    assert(Seq::<char>::empty() + uncoded(v@) == uncoded(v@));
    loop
        invariant
            from <= n == v@.len(),
            v@ == input@,
            code@ == "[CQ:"@,
            out@ + uncoded(v@.skip(from as int)) == uncoded(v@),
        decreases n - from,
    {
        let ghost rest = v@.skip(from as int);
        proof {
            lemma_part_from_skip(v@, code@, from as int, 0);
        }
        match find_part(&v, &code, from) {
            None => {
                let tail = slice_text(&v, from, n);
                out.append(tail.as_str());
                assert(v@.subrange(from as int, n as int) == rest);
                return trim(out.as_str());
            },
            Some(start) => {
                let ghost at = start - from;
                let head = slice_text(&v, from, start);
                assert(v@.subrange(from as int, start as int) == rest.take(at));
                let ghost before = out@;
                out.append(head.as_str());
                let end: usize = find_char(&v, ']', start);
                proof {
                    lemma_index_from_skip(v@, ']', from as int, at);
                }
                if end >= n {
                    return trim(out.as_str());
                }
                proof {
                    assert(rest.skip(end - from + 1) == v@.skip(end + 1));
                    assert(uncoded(rest) == rest.take(at) + uncoded(v@.skip(end + 1)));
                    assert(before + (rest.take(at) + uncoded(v@.skip(end + 1))) == (before
                        + rest.take(at)) + uncoded(v@.skip(end + 1)));
                }
                from = end + 1;
            },
        }
    }
}

proof fn lemma_part_from_skip(s: Seq<char>, part: Seq<char>, from: int, i: int)
    requires
        0 <= from <= s.len(),
        0 <= i,
    ensures
        match (part_from(s.skip(from), part, i), part_from(s, part, from + i)) {
            (Some(a), Some(b)) => a + from == b,
            (None, None) => true,
            _ => false,
        },
    decreases s.len() - from - i + 1,
{
    let rest = s.skip(from);
    if i <= rest.len() {
        if i + part.len() <= rest.len() {
            assert(rest.subrange(i, i + part.len()) == s.subrange(from + i, from + i + part.len()));
        }
        lemma_part_from_skip(s, part, from, i + 1);
    }
}

proof fn lemma_index_from_skip(s: Seq<char>, c: char, from: int, i: int)
    requires
        0 <= from <= s.len(),
        0 <= i,
    ensures
        index_from(s.skip(from), c, i) + from == index_from(s, c, from + i),
        index_from(s, c, from + i) >= from + i || from + i > s.len(),
    decreases s.len() - from - i,
{
    if i < s.skip(from).len() {
        lemma_index_from_skip(s, c, from, i + 1);
    }
}

/// The text that a segment of a message holds.
pub open spec fn segment_text(segment: JsonView) -> Seq<char> {
    if segment.string_at("type"@) == Some("text"@) {
        match segment.field("data"@) {
            Some(data) => match data.string_at("text"@) {
                Some(t) => t,
                None => Seq::empty(),
            },
            None => Seq::empty(),
        }
    } else {
        Seq::empty()
    }
}

/// The texts of the segments, one after the other.
pub open spec fn segments_text(segments: Seq<JsonView>) -> Seq<char>
    decreases segments.len(),
{
    if segments.len() == 0 {
        Seq::empty()
    } else {
        segments_text(segments.drop_last()) + segment_text(segments.last())
    }
}

/// The text of a message: a string with codes, or a list of segments.
pub open spec fn content_text(message: Option<JsonView>) -> Seq<char> {
    match message {
        Some(JsonView::Text(s)) => trimmed(uncoded(s)),
        Some(JsonView::Array(segments)) => trimmed_end(segments_text(segments)),
        _ => Seq::empty(),
    }
}

/// What an optional document says.
pub open spec fn said(message: Option<&Json>) -> Option<JsonView> {
    match message {
        Some(doc) => Some(doc.model()),
        None => None,
    }
}

fn append_segment(out: &mut String, segment: &Json)
    ensures
        final(out)@ == old(out)@ + segment_text(segment.model()),
{
    let is_text = match segment.text_at("type") {
        Some(t) => same_text(t.as_str(), "text"),
        None => false,
    };
    if is_text {
        match segment.get("data") {
            Some(data) => match data.text_at("text") {
                Some(t) => {
                    out.append(t.as_str());
                    return ;
                },
                None => {},
            },
            None => {},
        }
    }
    assert(out@ + Seq::<char>::empty() == out@);
}

/// The text of a message.
pub fn extract_text_content(message: Option<&Json>) -> (r: String)
    ensures
        r@ == content_text(said(message)),
{
    let doc = match message {
        Some(doc) => doc,
        None => {
            return String::new();
        },
    };
    match doc.as_text() {
        Some(s) => {
            return strip_cq_codes(s.as_str());
        },
        None => {},
    }
    match doc.as_array() {
        Some(segments) => {
            let ghost items = doc.model()->Array_0;
            let mut out = String::new();
            let mut i: usize = 0;
            while i < segments.len()
                invariant
                    i <= segments@.len() == items.len(),
                    forall|j: int|
                        0 <= j < items.len() ==> #[trigger] items[j] == segments@[j].model(),
                    out@ == segments_text(items.take(i as int)),
                decreases segments@.len() - i,
            {
                append_segment(&mut out, &segments[i]);
                proof {
                    assert(items.take(i + 1).drop_last() == items.take(i as int));
                    assert(items.take(i + 1).last() == segments@[i as int].model());
                }
                i += 1;
            }
            assert(items.take(i as int) == items);
            trim_end(out.as_str())
        },
        None => String::new(),
    }
}

/// The segment points at somebody.
pub open spec fn points(segment: JsonView) -> bool {
    segment.string_at("type"@) == Some("at"@)
}

/// One of the segments points at somebody.
pub open spec fn any_points(segments: Seq<JsonView>) -> bool {
    exists|i: int| 0 <= i < segments.len() && points(#[trigger] segments[i])
}

/// A segment of the message points at somebody.
pub open spec fn mentions(message: Option<JsonView>) -> bool {
    match message {
        Some(JsonView::Array(segments)) => any_points(segments),
        _ => false,
    }
}

/// Tells whether a segment of a message points at somebody. A string with codes
/// has no segments.
pub fn contains_at_segment(message: Option<&Json>) -> (r: bool)
    ensures
        r == mentions(said(message)),
{
    let doc = match message {
        Some(doc) => doc,
        None => {
            return false;
        },
    };
    match doc.as_array() {
        Some(segments) => {
            let ghost items = doc.model()->Array_0;
            let mut i: usize = 0;
            while i < segments.len()
                invariant
                    i <= segments@.len() == items.len(),
                    doc.model() == JsonView::Array(items),
                    message == Some(doc),
                    forall|j: int|
                        0 <= j < items.len() ==> #[trigger] items[j] == segments@[j].model(),
                    forall|j: int| 0 <= j < i ==> !points(#[trigger] items[j]),
                decreases segments@.len() - i,
            {
                assert(items[i as int] == segments@[i as int].model());
                match segments[i].text_at("type") {
                    Some(t) => if same_text(t.as_str(), "at") {
                        assert(said(message) == Some(JsonView::Array(items)));
                        assert(0 <= i < items.len() && points(items[i as int]));
                        assert(any_points(items));
                        return true;
                    },
                    None => {},
                }
                i += 1;
            }
            false
        },
        None => false,
    }
}

/// The field of an event that holds the number of its conversation.
pub open spec fn conversation_field(kind: Seq<char>) -> Seq<char> {
    if kind == "group"@ {
        "group_id"@
    } else {
        "user_id"@
    }
}

/// Why an event is no message that can be taken in.
pub open spec fn refusal(event: OneBotEvent) -> Option<Seq<char>> {
    let data = event.data.model();
    if event.post_type@ != "message"@ {
        Some("非消息事件: "@ + event.post_type@)
    } else {
        match data.string_at("message_type"@) {
            None => Some("缺少 message_type"@),
            Some(kind) => if kind != "group"@ && kind != "private"@ {
                Some("不支持的消息类型: "@ + kind)
            } else if data.signed_at(conversation_field(kind)) is None {
                Some("缺少会话 ID"@)
            } else if data.signed_at("user_id"@) is None {
                Some("缺少 user_id"@)
            } else if data.signed_at("message_id"@) is None {
                Some("缺少 message_id"@)
            } else {
                None
            },
        }
    }
}

/// What the sender is called: by a card that is not empty, else by a nickname.
pub open spec fn sender_name(data: JsonView) -> Seq<char> {
    match data.field("sender"@) {
        Some(sender) => match sender.string_at("card"@) {
            Some(card) if card.len() > 0 => card,
            _ => match sender.string_at("nickname"@) {
                Some(nickname) => nickname,
                None => "未知用户"@,
            },
        },
        None => "未知用户"@,
    }
}

fn display_name_in(data: &Json) -> (r: String)
    ensures
        r@ == sender_name(data.model()),
{
    match data.get("sender") {
        Some(sender) => {
            match sender.text_at("card") {
                Some(card) => if card.as_str().unicode_len() > 0 {
                    return card.clone();
                },
                None => {},
            }
            match sender.text_at("nickname") {
                Some(nickname) => nickname.clone(),
                None => owned("未知用户"),
            }
        },
        None => owned("未知用户"),
    }
}

/// The message is what the event says.
pub open spec fn taken_in(event: OneBotEvent, m: InboundMessage) -> bool {
    let data = event.data.model();
    let kind = data.string_at("message_type"@)->0;
    &&& m.conversation_type == if kind == "group"@ {
        ConversationType::Group
    } else {
        ConversationType::Private
    }
    &&& m.external_conversation_id@ == integer_text(
        data.signed_at(conversation_field(kind))->0 as int,
    )
    &&& m.external_sender_id@ == integer_text(data.signed_at("user_id"@)->0 as int)
    &&& m.display_name@ == sender_name(data)
    &&& m.platform_message_id == data.signed_at("message_id"@)->0
    &&& m.content@ == content_text(data.field("message"@))
    &&& m.unix_time == event.time
    &&& m.is_mentioned == mentions(data.field("message"@))
}

/// Takes an event in as a message. Only messages of groups and private
/// conversations that name conversation, sender and message can be.
pub fn onebot_event_to_inbound(event: &OneBotEvent) -> (r: Result<InboundMessage, RuntimeError>)
    ensures
        match refusal(*event) {
            Some(why) => r matches Err(RuntimeError::Adapter(s)) && s@ == why,
            None => r matches Ok(m) && taken_in(*event, m),
        },
{
    if !same_text(event.post_type.as_str(), "message") {
        return Err(
            RuntimeError::Adapter(concat("非消息事件: ", event.post_type.as_str())),
        );
    }
    let data = &event.data;
    let kind = match data.text_at("message_type") {
        Some(kind) => kind,
        None => {
            return Err(RuntimeError::Adapter(owned("缺少 message_type")));
        },
    };
    proof {
        reveal_strlit("group");
        reveal_strlit("private");
        assert("group"@.len() != "private"@.len());
    }
    let conversation_type = if same_text(kind.as_str(), "group") {
        ConversationType::Group
    } else if same_text(kind.as_str(), "private") {
        ConversationType::Private
    } else {
        return Err(RuntimeError::Adapter(concat("不支持的消息类型: ", kind.as_str())));
    };
    let conversation: i64 = match data.i64_at(
        match conversation_type {
            ConversationType::Group => "group_id",
            ConversationType::Private => "user_id",
        },
    ) {
        Some(id) => id,
        None => {
            return Err(RuntimeError::Adapter(owned("缺少会话 ID")));
        },
    };
    let sender: i64 = match data.i64_at("user_id") {
        Some(id) => id,
        None => {
            return Err(RuntimeError::Adapter(owned("缺少 user_id")));
        },
    };
    let platform_message_id: i64 = match data.i64_at("message_id") {
        Some(id) => id,
        None => {
            return Err(RuntimeError::Adapter(owned("缺少 message_id")));
        },
    };
    let message = data.get("message");
    Ok(
        InboundMessage {
            conversation_type,
            external_conversation_id: i64_text(conversation),
            external_sender_id: i64_text(sender),
            display_name: display_name_in(data),
            platform_message_id,
            content: extract_text_content(message),
            unix_time: event.time,
            is_mentioned: contains_at_segment(message),
        },
    )
}

/// The number that a name on the platform stands for; zero where it is none.
pub open spec fn qq_id(id: Seq<char>) -> int {
    match read_i64(trimmed(id)) {
        Some(n) => n,
        None => 0,
    }
}

/// The number that a name on the platform stands for.
pub fn parse_qq_id(id: &str) -> (r: i64)
    ensures
        r == qq_id(id@),
{
    match parse_i64(trim(id).as_str()) {
        Some(n) => n,
        None => 0,
    }
}

/// A request to send a message to a group.
pub fn build_group_send_request(group_id: &str, content: &str) -> (r: OutgoingRequest)
    ensures
        r.action@ == "send_group_msg"@,
        r.params.model() == JsonView::Object(
            seq![
                ("group_id"@, JsonView::Number(JsonNumber::of(qq_id(group_id@) as i64))),
                ("message"@, JsonView::Text(content@)),
            ],
        ),
{
    OutgoingRequest {
        action: owned("send_group_msg"),
        params: Json::pair(
            (owned("group_id"), Json::Number(JsonNumber::integer(parse_qq_id(group_id)))),
            (owned("message"), Json::Text(owned(content))),
        ),
    }
}

/// A request to send a message to a user.
pub fn build_private_send_request(user_id: &str, content: &str) -> (r: OutgoingRequest)
    ensures
        r.action@ == "send_private_msg"@,
        r.params.model() == JsonView::Object(
            seq![
                ("message"@, JsonView::Text(content@)),
                ("user_id"@, JsonView::Number(JsonNumber::of(qq_id(user_id@) as i64))),
            ],
        ),
{
    OutgoingRequest {
        action: owned("send_private_msg"),
        params: Json::pair(
            (owned("message"), Json::Text(owned(content))),
            (owned("user_id"), Json::Number(JsonNumber::integer(parse_qq_id(user_id)))),
        ),
    }
}

/// An answer goes where the message came from: the names that an event is taken
/// in with stand for the numbers that the event gave.
pub proof fn answers_find_their_way(event: OneBotEvent, m: InboundMessage)
    requires
        refusal(event) is None,
        taken_in(event, m),
    ensures
        qq_id(m.external_conversation_id@) == event.data.model().signed_at(
            conversation_field(event.data.model().string_at("message_type"@)->0),
        )->0,
        qq_id(m.external_sender_id@) == event.data.model().signed_at("user_id"@)->0,
{
    let data = event.data.model();
    let kind = data.string_at("message_type"@)->0;
    crate::text::reading_a_written_integer(data.signed_at(conversation_field(kind))->0);
    crate::text::reading_a_written_integer(data.signed_at("user_id"@)->0);
}

/// A text without a code only loses white space at its ends.
pub proof fn plain_text_is_kept(s: Seq<char>)
    requires
        !crate::text::has_part(s, "[CQ:"@),
    ensures
        trimmed(uncoded(s)) == trimmed(s),
{
    lemma_no_part(s, "[CQ:"@, 0);
}

proof fn lemma_no_part(s: Seq<char>, part: Seq<char>, from: int)
    requires
        0 <= from,
        !crate::text::has_part(s, part),
    ensures
        part_from(s, part, from) is None,
    decreases s.len() - from + 1,
{
    if from <= s.len() {
        assert(!crate::text::occurs_at(s, part, from));
        lemma_no_part(s, part, from + 1);
    }
}

// ---------------------------------------------------------------------------
// Laws
// ---------------------------------------------------------------------------

/// A message that is a list of segments mentions somebody where, at any place in
/// the list, a segment's type is "at", and only there. A message that is no list
/// mentions nobody.
pub proof fn any_segment_can_mention(event: OneBotEvent, m: InboundMessage, i: int)
    requires
        call_ensures(onebot_event_to_inbound, (&event,), Ok::<InboundMessage, RuntimeError>(m)),
    ensures
        match event.data.model().field("message"@) {
            Some(JsonView::Array(segments)) => {
                &&& 0 <= i < segments.len() && segments[i].field("type"@) == Some(
                    JsonView::Text("at"@),
                ) ==> m.is_mentioned
                &&& m.is_mentioned ==> exists|k: int|
                    0 <= k < segments.len() && (#[trigger] segments[k]).field("type"@) == Some(
                        JsonView::Text("at"@),
                    )
            },
            _ => !m.is_mentioned,
        },
{
    match event.data.model().field("message"@) {
        Some(JsonView::Array(segments)) => {
            if 0 <= i < segments.len() && segments[i].field("type"@) == Some(
                JsonView::Text("at"@),
            ) {
                assert(points(segments[i]));
            }
            if m.is_mentioned {
                let k = choose|k: int| 0 <= k < segments.len() && points(#[trigger] segments[k]);
                let found = segments[k].field("type"@);
                assert(found == Some(JsonView::Text("at"@)));
            }
        },
        _ => {},
    }
}

/// Nothing but "message" events of groups and private conversations that name the
/// conversation, the sender and the message is taken in, and every such event is.
pub proof fn whole_messages_are_taken_in(
    event: OneBotEvent,
    r: Result<InboundMessage, RuntimeError>,
)
    requires
        call_ensures(onebot_event_to_inbound, (&event,), r),
    ensures
        ({
            let data = event.data.model();
            let group = data.string_at("message_type"@) == Some("group"@);
            let private = data.string_at("message_type"@) == Some("private"@);
            r is Ok <==> {
                &&& event.post_type@ == "message"@
                &&& (group && data.signed_at("group_id"@) is Some) || private
                &&& data.signed_at("user_id"@) is Some
                &&& data.signed_at("message_id"@) is Some
            }
        }),
        r matches Ok(m) ==> m.unix_time == event.time && event.data.model().signed_at(
            "message_id"@,
        ) == Some(m.platform_message_id),
{
    lemma_kinds_differ();
}

/// A message of a group belongs to the conversation that the group's number names,
/// a private message to the one that the sender's number names.
pub proof fn messages_keep_their_conversation(event: OneBotEvent, m: InboundMessage)
    requires
        call_ensures(onebot_event_to_inbound, (&event,), Ok::<InboundMessage, RuntimeError>(m)),
    ensures
        m.conversation_type == ConversationType::Group <==> event.data.model().string_at(
            "message_type"@,
        ) == Some("group"@),
        m.conversation_type == ConversationType::Group ==> m.external_conversation_id@
            == integer_text(event.data.model().signed_at("group_id"@)->0 as int),
        m.conversation_type == ConversationType::Private ==> m.external_conversation_id@
            == m.external_sender_id@,
        m.external_sender_id@ == integer_text(event.data.model().signed_at("user_id"@)->0 as int),
{
    lemma_kinds_differ();
}

/// A sender goes by a card that is not empty, without one by the nickname, and
/// without either as an unknown user.
pub proof fn senders_go_by_card_or_nickname(event: OneBotEvent, m: InboundMessage)
    requires
        call_ensures(onebot_event_to_inbound, (&event,), Ok::<InboundMessage, RuntimeError>(m)),
    ensures
        match event.data.model().field("sender"@) {
            Some(sender) => {
                &&& sender.string_at("card"@) is Some && sender.string_at("card"@)->0.len() > 0
                    ==> m.display_name@ == sender.string_at("card"@)->0
                &&& (sender.string_at("card"@) is None || sender.string_at("card"@)->0.len() == 0)
                    && sender.string_at("nickname"@) is Some ==> m.display_name@
                    == sender.string_at("nickname"@)->0
                &&& (sender.string_at("card"@) is None || sender.string_at("card"@)->0.len() == 0)
                    && sender.string_at("nickname"@) is None ==> m.display_name@ == "未知用户"@
            },
            None => m.display_name@ == "未知用户"@,
        },
{
    lemma_kinds_differ();
}

proof fn lemma_kinds_differ()
    ensures
        "group"@ != "private"@,
{
    reveal_strlit("group");
    reveal_strlit("private");
    assert("group"@.len() != "private"@.len());
}

/// The text of a list of segments is that of its segments, one after the other: a
/// segment of type "text" gives the text in its data, any other gives none.
pub proof fn segments_give_their_texts(
    a: Seq<JsonView>,
    b: Seq<JsonView>,
    segment: JsonView,
    t: Seq<char>,
)
    ensures
        segments_text(Seq::empty()) == Seq::<char>::empty(),
        segments_text(a + b) == segments_text(a) + segments_text(b),
        segment.field("type"@) == Some(JsonView::Text("text"@)) && segment.field("data"@) is Some
            && segment.field("data"@)->0.field("text"@) == Some(JsonView::Text(t))
            ==> segments_text(seq![segment]) == t,
        segment.field("type"@) != Some(JsonView::Text("text"@)) ==> segments_text(seq![segment])
            == Seq::<char>::empty(),
    decreases b.len(),
{
    assert(seq![segment].drop_last() =~= Seq::<JsonView>::empty());
    assert(segments_text(Seq::empty()) == Seq::<char>::empty());
    assert(segments_text(seq![segment]) =~= segment_text(segment));
    if b.len() == 0 {
        assert(a + b =~= a);
        assert(segments_text(a + b) =~= segments_text(a) + segments_text(b));
    } else {
        segments_give_their_texts(a, b.drop_last(), segment, t);
        assert((a + b).drop_last() =~= a + b.drop_last());
        assert(segments_text(a + b) =~= segments_text(a) + segments_text(b));
    }
}

/// What is taken in of a message: of a list of segments their text without white
/// space at its end, of a string the string without its codes and without white
/// space at either end.
pub proof fn messages_keep_their_text(event: OneBotEvent, m: InboundMessage)
    requires
        call_ensures(onebot_event_to_inbound, (&event,), Ok::<InboundMessage, RuntimeError>(m)),
    ensures
        match event.data.model().field("message"@) {
            Some(JsonView::Array(segments)) => m.content@ == trimmed_end(segments_text(segments)),
            Some(JsonView::Text(s)) => m.content@ == trimmed(uncoded(s)),
            _ => m.content@.len() == 0,
        },
{
    lemma_kinds_differ();
}

/// A code is cut out from its opening bracket to the first closing one, and what
/// stands before and after it stays; one that is never closed takes the rest of the
/// text with it.
pub proof fn codes_are_cut_out(before: Seq<char>, code: Seq<char>, after: Seq<char>)
    requires
        forall|i: int|
            0 <= i < before.len() ==> !crate::text::occurs_at(
                before + "[CQ:"@ + code + seq![']'] + after,
                "[CQ:"@,
                i,
            ),
        forall|i: int|
            0 <= i < before.len() ==> !crate::text::occurs_at(
                before + "[CQ:"@ + code,
                "[CQ:"@,
                i,
            ),
        !code.contains(']'),
    ensures
        uncoded(before + "[CQ:"@ + code + seq![']'] + after) == before + uncoded(after),
        uncoded(before + "[CQ:"@ + code) == before,
{
    reveal_strlit("[CQ:");
    let n = before.len() as int;
    let open = before + "[CQ:"@ + code;
    let s = open + seq![']'] + after;
    assert(s.subrange(n, n + 4) =~= "[CQ:"@);
    assert(open.subrange(n, n + 4) =~= "[CQ:"@);
    lemma_first_part(s, "[CQ:"@, 0, n);
    lemma_first_part(open, "[CQ:"@, 0, n);
    assert forall|i: int| n <= i < open.len() implies s[i] != ']' && open[i] != ']' by {
        if i < n + 4 {
            assert(s[i] == "[CQ:"@[i - n]);
            assert(open[i] == "[CQ:"@[i - n]);
        } else {
            assert(s[i] == code[i - n - 4]);
            assert(open[i] == code[i - n - 4]);
            assert(code.contains(code[i - n - 4]));
        }
    }
    assert(s[open.len() as int] == ']');
    lemma_first_index(s, ']', n, open.len() as int);
    lemma_first_index(open, ']', n, open.len() as int);
    assert(s.take(n) =~= before);
    assert(open.take(n) =~= before);
    assert(s.skip(open.len() as int + 1) =~= after);
}

proof fn lemma_first_part(s: Seq<char>, part: Seq<char>, from: int, at: int)
    requires
        0 <= from <= at <= s.len(),
        crate::text::occurs_at(s, part, at),
        forall|i: int| from <= i < at ==> !crate::text::occurs_at(s, part, i),
    ensures
        part_from(s, part, from) == Some(at),
    decreases at - from,
{
    if from < at {
        lemma_first_part(s, part, from + 1, at);
    }
}

proof fn lemma_first_index(s: Seq<char>, c: char, from: int, at: int)
    requires
        0 <= from <= at <= s.len(),
        at < s.len() ==> s[at] == c,
        forall|i: int| from <= i < at ==> s[i] != c,
    ensures
        index_from(s, c, from) == at,
    decreases at - from,
{
    if from < at {
        lemma_first_index(s, c, from + 1, at);
    }
}

/// An answer goes to the group, or to the user, whose number the name stands for,
/// and says what it was given.
pub proof fn requests_carry_target_and_content(
    id: &str,
    content: &str,
    group: OutgoingRequest,
    private: OutgoingRequest,
)
    requires
        call_ensures(build_group_send_request, (id, content), group),
        call_ensures(build_private_send_request, (id, content), private),
    ensures
        group.action@ == "send_group_msg"@,
        private.action@ == "send_private_msg"@,
        group.params.model().string_at("message"@) == Some(content@),
        private.params.model().string_at("message"@) == Some(content@),
        group.params.model().signed_at("group_id"@) == Some(qq_id(id@) as i64),
        private.params.model().signed_at("user_id"@) == Some(qq_id(id@) as i64),
        read_i64(trimmed(id@)) matches Some(n) ==> qq_id(id@) == n,
        read_i64(trimmed(id@)) is None ==> qq_id(id@) == 0,
{
    reveal_strlit("group_id");
    reveal_strlit("message");
    reveal_strlit("user_id");
    assert("group_id"@.len() == 8 && "message"@.len() == 7 && "user_id"@.len() == 7);
    assert("message"@[0] == 'm' && "user_id"@[0] == 'u');
    reveal_with_fuel(JsonView::key_index, 3);
}

/// A message document mentions somebody where any of its segments is of type "at".
pub proof fn any_segment_points(doc: Json, r: bool, none: bool, i: int)
    requires
        call_ensures(contains_at_segment, (Some(&doc),), r),
        call_ensures(contains_at_segment, (None::<&Json>,), none),
    ensures
        !none,
        !(doc.model() is Array) ==> !r,
        doc.model() matches JsonView::Array(segments) ==> {
            &&& 0 <= i < segments.len() && segments[i].field("type"@) == Some(JsonView::Text("at"@))
                ==> r
            &&& (forall|k: int|
                0 <= k < segments.len() ==> (#[trigger] segments[k]).field("type"@) != Some(
                    JsonView::Text("at"@),
                )) ==> !r
        },
{
    if let JsonView::Array(segments) = doc.model() {
        if 0 <= i < segments.len() && segments[i].field("type"@) == Some(JsonView::Text("at"@)) {
            assert(points(segments[i]));
        }
        if r {
            let k = choose|k: int| 0 <= k < segments.len() && points(#[trigger] segments[k]);
            assert(segments[k].field("type"@) == Some(JsonView::Text("at"@)));
        }
    }
}

/// The text of a string without codes is the string without the white space around it,
/// and of one text segment its text without the white space after it.
pub proof fn plain_texts_are_extracted(doc: Json, r: String, t: Seq<char>)
    requires
        call_ensures(extract_text_content, (Some(&doc),), r),
    ensures
        doc.model() matches JsonView::Text(s) ==> (!crate::text::has_part(s, "[CQ:"@) ==> r@
            == trimmed(s)),
        doc.model() matches JsonView::Array(segments) ==> (segments.len() == 1
            && segments[0].field("type"@) == Some(JsonView::Text("text"@)) && segments[0].field(
            "data"@,
        ) is Some && segments[0].field("data"@)->0.field("text"@) == Some(JsonView::Text(t))
            ==> r@ == trimmed_end(t)),
{
    match doc.model() {
        JsonView::Text(s) => {
            if !crate::text::has_part(s, "[CQ:"@) {
                plain_text_is_kept(s);
            }
        },
        JsonView::Array(segments) => {
            if segments.len() == 1 {
                assert(segments =~= seq![segments[0]]);
                segments_give_their_texts(Seq::empty(), Seq::empty(), segments[0], t);
            }
        },
        _ => {},
    }
}

/// What is left of a text with one code in it is what stands around the code.
pub proof fn a_code_is_stripped(
    input: &str,
    r: String,
    before: Seq<char>,
    code: Seq<char>,
    after: Seq<char>,
)
    requires
        call_ensures(strip_cq_codes, (input,), r),
        input@ == before + "[CQ:"@ + code + seq![']'] + after,
        !code.contains(']'),
        !before.contains('['),
        !crate::text::has_part(after, "[CQ:"@),
    ensures
        r@ == trimmed(before + after),
{
    reveal_strlit("[CQ:");
    let whole = before + "[CQ:"@ + code + seq![']'] + after;
    let open = before + "[CQ:"@ + code;
    assert forall|i: int| 0 <= i < before.len() implies !crate::text::occurs_at(
        whole,
        "[CQ:"@,
        i,
    ) by {
        if crate::text::occurs_at(whole, "[CQ:"@, i) {
            assert(whole.subrange(i, i + 4)[0] == '[');
            assert(whole[i] == before[i]);
            assert(before.contains(before[i]));
        }
    }
    assert forall|i: int| 0 <= i < before.len() implies !crate::text::occurs_at(
        open,
        "[CQ:"@,
        i,
    ) by {
        if crate::text::occurs_at(open, "[CQ:"@, i) {
            assert(open.subrange(i, i + 4)[0] == '[');
            assert(open[i] == before[i]);
            assert(before.contains(before[i]));
        }
    }
    codes_are_cut_out(before, code, after);
    lemma_no_part(after, "[CQ:"@, 0);
}

} // verus!

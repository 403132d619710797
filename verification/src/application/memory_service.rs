//! Which messages become memories.

use vstd::prelude::*;

use crate::domain::memory::{share, Memory, MemoryType};
use crate::scalar::{
    Scalar, EIGHT_TENTHS, FOUR_TENTHS, HALF, NINE_TENTHS, ONE, SEVEN_TENTHS_SUM, SIX_TENTHS_SUM,
};
use crate::text::{
    char_count, contains, has_part, lowercase, owned, same_text, texts, to_lowercase, trim,
    trimmed,
};
use crate::json::JsonView;
use crate::time::Timestamp;

verus! {

/// The least number of characters of a message that is kept without a trigger.
pub const MIN_MESSAGE_CHARS: usize = 12;

/// The least importance of a message that is kept: 0.5.
pub const MIN_IMPORTANCE: u64 = HALF;

/// A message that may become a memory.
#[derive(Debug)]
pub struct MemoryCandidate {
    pub content: String,
    pub memory_type: MemoryType,
    /// Importance, 0 to 1.
    pub importance: Scalar,
    /// The triggers in it, for later searches.
    pub keywords: Vec<String>,
    /// Who said it.
    pub participant_id: Option<i64>,
}

/// What people say about those close to them.
pub open spec fn relationship_triggers() -> Seq<Seq<char>> {
    seq![
        "我朋友"@, "我弟弟"@, "我妹妹"@, "我哥哥"@, "我姐姐"@, "我家人"@, "我爸妈"@, "我爸"@, "我妈"@,
        "我老公"@, "我老婆"@, "我对象"@, "我室友"@, "我和"@, "我们"@,
    ]
}

/// What people say about themselves.
pub open spec fn semantic_triggers() -> Seq<Seq<char>> {
    seq![
        "我喜欢"@, "我爱"@, "我讨厌"@, "我不喜欢"@, "我住在"@, "我是"@, "我的名字"@, "我养"@, "我家"@,
        "我生日"@, "我今年"@, "我会"@, "我能"@, "我想要"@,
    ]
}

/// What people say about what happened.
pub open spec fn episodic_triggers() -> Seq<Seq<char>> {
    seq![
        "今天"@, "昨天"@, "上周"@, "明天"@, "我考试"@, "我去了"@, "我做了"@, "我买了"@, "我吃完"@, "我记得"@,
    ]
}

/// The texts of string slices.
pub open spec fn slice_texts(v: Seq<&str>) -> Seq<Seq<char>> {
    v.map_values(|s: &str| s@)
}

fn relationship_words() -> (r: Vec<&'static str>)
    ensures
        slice_texts(r@) == relationship_triggers(),
{
    let r: Vec<&'static str> = vec![
        "我朋友", "我弟弟", "我妹妹", "我哥哥", "我姐姐", "我家人", "我爸妈", "我爸", "我妈", "我老公",
        "我老婆", "我对象", "我室友", "我和", "我们",
    ];
    assert(slice_texts(r@) =~= relationship_triggers());
    r
}

fn semantic_words() -> (r: Vec<&'static str>)
    ensures
        slice_texts(r@) == semantic_triggers(),
{
    let r: Vec<&'static str> = vec![
        "我喜欢", "我爱", "我讨厌", "我不喜欢", "我住在", "我是", "我的名字", "我养", "我家", "我生日",
        "我今年", "我会", "我能", "我想要",
    ];
    assert(slice_texts(r@) =~= semantic_triggers());
    r
}

fn episodic_words() -> (r: Vec<&'static str>)
    ensures
        slice_texts(r@) == episodic_triggers(),
{
    let r: Vec<&'static str> = vec![
        "今天", "昨天", "上周", "明天", "我考试", "我去了", "我做了", "我买了", "我吃完", "我记得",
    ];
    assert(slice_texts(r@) =~= episodic_triggers());
    r
}

/// One of the triggers stands in the text.
pub open spec fn hits(text: Seq<char>, triggers: Seq<Seq<char>>) -> bool {
    exists|i: int| 0 <= i < triggers.len() && has_part(text, #[trigger] triggers[i])
}

/// Tells whether one of the triggers stands in the text.
pub fn trigger_hit(text: &str, triggers: &[&str]) -> (r: bool)
    ensures
        r == hits(text@, slice_texts(triggers@)),
{
    let mut i: usize = 0;
    while i < triggers.len()
        invariant
            i <= triggers@.len(),
            forall|j: int| 0 <= j < i ==> !has_part(text@, #[trigger] slice_texts(triggers@)[j]),
        decreases triggers@.len() - i,
    {
        if contains(text, triggers[i]) {
            assert(has_part(text@, slice_texts(triggers@)[i as int]));
            return true;
        }
        i += 1;
    }
    false
}

/// The triggers that stand in the text, in the order of the lists, each once.
pub open spec fn found_triggers(text: Seq<char>, triggers: Seq<Seq<char>>) -> Seq<Seq<char>>
    decreases triggers.len(),
{
    if triggers.len() == 0 {
        Seq::empty()
    } else {
        let before = found_triggers(text, triggers.drop_last());
        let t = triggers.last();
        if has_part(text, t) && !before.contains(t) {
            before.push(t)
        } else {
            before
        }
    }
}

/// All triggers.
pub open spec fn all_triggers() -> Seq<Seq<char>> {
    relationship_triggers() + semantic_triggers() + episodic_triggers()
}

fn lists(found: &Vec<String>, word: &str) -> (r: bool)
    ensures
        r == texts(found@).contains(word@),
{
    let mut i: usize = 0;
    while i < found.len()
        invariant
            i <= found@.len(),
            forall|j: int| 0 <= j < i ==> #[trigger] texts(found@)[j] != word@,
        decreases found@.len() - i,
    {
        if same_text(found[i].as_str(), word) {
            assert(texts(found@)[i as int] == word@);
            return true;
        }
        i += 1;
    }
    false
}

fn add_found(found: &mut Vec<String>, text: &str, words: &Vec<&'static str>, done: Ghost<Seq<Seq<char>>>)
    requires
        texts(old(found)@) == found_triggers(text@, done@),
    ensures
        texts(final(found)@) == found_triggers(text@, done@ + slice_texts(words@)),
{
    let ghost list = slice_texts(words@);
    let mut i: usize = 0;
    assert(done@ + list.take(0) =~= done@);
    while i < words.len()
        invariant
            i <= words@.len(),
            list == slice_texts(words@),
            texts(found@) == found_triggers(text@, done@ + list.take(i as int)),
        decreases words@.len() - i,
    {
        let word: &'static str = words[i];
        proof {
            assert((done@ + list.take(i + 1)).drop_last() =~= done@ + list.take(i as int));
            assert((done@ + list.take(i + 1)).last() == word@);
        }
        if contains(text, word) && !lists(found, word) {
            let ghost before = found@;
            found.push(owned(word));
            assert(texts(found@) =~= texts(before).push(word@));
        }
        i += 1;
    }
    assert(list.take(i as int) =~= list);
}

/// The number of kinds of triggers in a text.
pub open spec fn trigger_kinds(text: Seq<char>) -> int {
    (if hits(text, relationship_triggers()) {
        1int
    } else {
        0int
    }) + (if hits(text, semantic_triggers()) {
        1int
    } else {
        0int
    }) + (if hits(text, episodic_triggers()) {
        1int
    } else {
        0int
    })
}

/// The importance of a message with so many kinds of triggers and so many
/// characters: 0.4, 0.2 for each kind, 0.1 from 20 characters and 0.2 from 40 on,
/// 1 at most.
pub open spec fn importance_of(kinds: int, chars: int) -> Scalar {
    let steps = 2 * kinds + (if chars >= 40 {
        2int
    } else if chars >= 20 {
        1int
    } else {
        0int
    });
    Scalar {
        bits: if steps == 0 {
            FOUR_TENTHS
        } else if steps == 1 {
            HALF
        } else if steps == 2 {
            SIX_TENTHS_SUM
        } else if steps == 3 {
            SEVEN_TENTHS_SUM
        } else if steps == 4 {
            EIGHT_TENTHS
        } else if steps == 5 {
            NINE_TENTHS
        } else {
            ONE
        },
    }
}

/// What kind of memory a message makes: a relationship before a fact before an event.
pub open spec fn kind_of(text: Seq<char>) -> MemoryType {
    if hits(text, relationship_triggers()) {
        MemoryType::Relationship
    } else if hits(text, semantic_triggers()) {
        MemoryType::Semantic
    } else {
        MemoryType::Episodic
    }
}

/// A text, given with its lower case, is worth remembering.
pub open spec fn memorable(text: Seq<char>, lower: Seq<char>) -> bool {
    &&& text.len() > 0
    &&& !(text.len() < MIN_MESSAGE_CHARS && trigger_kinds(lower) == 0)
    &&& !importance_of(trigger_kinds(lower), text.len() as int).below(Scalar { bits: MIN_IMPORTANCE })
}

/// The candidate that a text makes.
pub open spec fn candidate_of(
    c: MemoryCandidate,
    text: Seq<char>,
    lower: Seq<char>,
    participant_id: i64,
) -> bool {
    &&& c.content@ == text
    &&& c.memory_type == kind_of(lower)
    &&& c.importance == importance_of(trigger_kinds(lower), text.len() as int)
    &&& texts(c.keywords@) == found_triggers(lower, all_triggers())
    &&& c.participant_id == Some(participant_id)
}

/// Weighs a text that has no white space around it, given with its lower case.
pub fn weigh(text: &str, lower: &str, participant_id: i64) -> (r: Option<MemoryCandidate>)
    ensures
        r is Some <==> memorable(text@, lower@),
        r matches Some(c) ==> candidate_of(c, text@, lower@, participant_id),
{
    if text.is_empty() {
        return None;
    }
    let rel_words = relationship_words();
    let sem_words = semantic_words();
    let epi_words = episodic_words();
    let has_rel = trigger_hit(lower, rel_words.as_slice());
    let has_sem = trigger_hit(lower, sem_words.as_slice());
    let has_epi = trigger_hit(lower, epi_words.as_slice());
    let chars: usize = char_count(text);
    let kinds: u8 = (if has_rel {
        1u8
    } else {
        0u8
    }) + (if has_sem {
        1u8
    } else {
        0u8
    }) + (if has_epi {
        1u8
    } else {
        0u8
    });
    let steps: u8 = 2 * kinds + (if chars >= 40 {
        2u8
    } else if chars >= 20 {
        1u8
    } else {
        0u8
    });
    let importance = Scalar {
        bits: if steps == 0 {
            FOUR_TENTHS
        } else if steps == 1 {
            HALF
        } else if steps == 2 {
            SIX_TENTHS_SUM
        } else if steps == 3 {
            SEVEN_TENTHS_SUM
        } else if steps == 4 {
            EIGHT_TENTHS
        } else if steps == 5 {
            NINE_TENTHS
        } else {
            ONE
        },
    };
    if chars < MIN_MESSAGE_CHARS && kinds == 0 {
        return None;
    }
    if importance.less_than(Scalar { bits: MIN_IMPORTANCE }) {
        return None;
    }
    let memory_type = if has_rel {
        MemoryType::Relationship
    } else if has_sem {
        MemoryType::Semantic
    } else {
        MemoryType::Episodic
    };
    let mut keywords: Vec<String> = Vec::new();
    let ghost none = Seq::<Seq<char>>::empty();
    proof {
        assert(texts(keywords@) =~= none);
        assert(none + relationship_triggers() =~= relationship_triggers());
    }
    add_found(&mut keywords, lower, &rel_words, Ghost(none));
    add_found(&mut keywords, lower, &sem_words, Ghost(relationship_triggers()));
    add_found(
        &mut keywords,
        lower,
        &epi_words,
        Ghost(relationship_triggers() + semantic_triggers()),
    );
    Some(
        MemoryCandidate {
            content: owned(text),
            memory_type,
            importance,
            keywords,
            participant_id: Some(participant_id),
        },
    )
}

/// Weighs a message; nothing where it is not worth remembering.
pub fn evaluate(message_text: &str, participant_id: i64) -> (r: Option<MemoryCandidate>)
    ensures
        r is Some <==> memorable(trimmed(message_text@), lowercase(trimmed(message_text@))),
        r matches Some(c) ==> candidate_of(
            c,
            trimmed(message_text@),
            lowercase(trimmed(message_text@)),
            participant_id,
        ),
{
    let text = trim(message_text);
    let lower = to_lowercase(text.as_str());
    weigh(text.as_str(), lower.as_str(), participant_id)
}

/// The memory to be stored for a message; nothing where it is not worth
/// remembering.
pub fn extract(
    character_id: i64,
    conversation_id: Option<i64>,
    participant_id: i64,
    message_text: &str,
    now: Timestamp,
) -> (r: Option<Memory>)
    ensures
        r is Some <==> memorable(trimmed(message_text@), lowercase(trimmed(message_text@))),
        r matches Some(m) ==> ({
            let text = trimmed(message_text@);
            let lower = lowercase(text);
            &&& m.id == 0
            &&& m.character_id == character_id
            &&& m.conversation_id == conversation_id
            &&& m.memory_type == kind_of(lower)
            &&& m.content@ == text
            &&& m.importance == share(importance_of(trigger_kinds(lower), text.len() as int))
            &&& m.created_at == now
            &&& m.last_accessed == now
            &&& m.metadata.model() == JsonView::Null
        }),
{
    match evaluate(message_text, participant_id) {
        Some(c) => Some(
            Memory::new(character_id, conversation_id, c.memory_type, c.content, c.importance, now),
        ),
        None => None,
    }
}

/// A message is kept exactly where a trigger stands in it or it has twenty
/// characters at least.
pub proof fn what_is_remembered(text: Seq<char>, lower: Seq<char>)
    requires
        text.len() > 0,
    ensures
        memorable(text, lower) <==> trigger_kinds(lower) > 0 || text.len() >= 20,
{
}

/// The importance lies between 0 and 1, and neither another kind of trigger nor
/// more characters ever lower it.
pub proof fn importance_is_monotone(kinds: int, more_kinds: int, chars: int, more_chars: int)
    requires
        0 <= kinds <= more_kinds <= 3,
        0 <= chars <= more_chars,
    ensures
        !importance_of(more_kinds, more_chars).below(importance_of(kinds, chars)),
        share(importance_of(kinds, chars)) == importance_of(kinds, chars),
{
}

/// The words that make a memory, by kind.
pub proof fn the_words_that_make_memories(w: Seq<char>)
    ensures
        relationship_triggers().contains(w) <==> w == "我朋友"@ || w == "我弟弟"@ || w == "我妹妹"@ || w
            == "我哥哥"@ || w == "我姐姐"@ || w == "我家人"@ || w == "我爸妈"@ || w == "我爸"@ || w == "我妈"@
            || w == "我老公"@ || w == "我老婆"@ || w == "我对象"@ || w == "我室友"@ || w == "我和"@ || w
            == "我们"@,
        semantic_triggers().contains(w) <==> w == "我喜欢"@ || w == "我爱"@ || w == "我讨厌"@ || w
            == "我不喜欢"@ || w == "我住在"@ || w == "我是"@ || w == "我的名字"@ || w == "我养"@ || w == "我家"@
            || w == "我生日"@ || w == "我今年"@ || w == "我会"@ || w == "我能"@ || w == "我想要"@,
        episodic_triggers().contains(w) <==> w == "今天"@ || w == "昨天"@ || w == "上周"@ || w == "明天"@
            || w == "我考试"@ || w == "我去了"@ || w == "我做了"@ || w == "我买了"@ || w == "我吃完"@ || w
            == "我记得"@,
{
    let r = relationship_triggers();
    assert(r[0] == "我朋友"@ && r[1] == "我弟弟"@ && r[2] == "我妹妹"@ && r[3] == "我哥哥"@ && r[4]
        == "我姐姐"@ && r[5] == "我家人"@ && r[6] == "我爸妈"@ && r[7] == "我爸"@ && r[8] == "我妈"@ && r[9]
        == "我老公"@ && r[10] == "我老婆"@ && r[11] == "我对象"@ && r[12] == "我室友"@ && r[13] == "我和"@
        && r[14] == "我们"@);
    let s = semantic_triggers();
    assert(s[0] == "我喜欢"@ && s[1] == "我爱"@ && s[2] == "我讨厌"@ && s[3] == "我不喜欢"@ && s[4]
        == "我住在"@ && s[5] == "我是"@ && s[6] == "我的名字"@ && s[7] == "我养"@ && s[8] == "我家"@ && s[9]
        == "我生日"@ && s[10] == "我今年"@ && s[11] == "我会"@ && s[12] == "我能"@ && s[13] == "我想要"@);
    let e = episodic_triggers();
    assert(e[0] == "今天"@ && e[1] == "昨天"@ && e[2] == "上周"@ && e[3] == "明天"@ && e[4] == "我考试"@
        && e[5] == "我去了"@ && e[6] == "我做了"@ && e[7] == "我买了"@ && e[8] == "我吃完"@ && e[9]
        == "我记得"@);
}

/// A word of the list stands in the text.
pub open spec fn mentions_one(text: Seq<char>, words: Seq<Seq<char>>) -> bool {
    exists|w: Seq<char>| words.contains(w) && #[trigger] has_part(text, w)
}

proof fn lemma_hits(text: Seq<char>, words: Seq<Seq<char>>)
    ensures
        hits(text, words) == mentions_one(text, words),
{
    if hits(text, words) {
        let i = choose|i: int| 0 <= i < words.len() && has_part(text, #[trigger] words[i]);
        assert(words.contains(words[i]));
    }
    if mentions_one(text, words) {
        let w = choose|w: Seq<char>| words.contains(w) && #[trigger] has_part(text, w);
        let i = words.index_of(w);
        assert(has_part(text, words[i]));
    }
}

/// A message is remembered exactly where one of the words stands in it or, without
/// the white space around it, it has twenty characters at least. One about those
/// close to the speaker is a relationship, else one about the speaker a fact, else
/// it is an event; the text is kept whole, for the speaker.
pub proof fn messages_are_remembered_by_their_words(
    message: &str,
    participant_id: i64,
    r: Option<MemoryCandidate>,
)
    requires
        call_ensures(evaluate, (message, participant_id), r),
    ensures
        ({
            let text = trimmed(message@);
            let lower = lowercase(text);
            let related = mentions_one(lower, relationship_triggers());
            let factual = mentions_one(lower, semantic_triggers());
            let eventful = mentions_one(lower, episodic_triggers());
            &&& r is Some <==> text.len() > 0 && (related || factual || eventful || text.len() >= 20)
            &&& r matches Some(c) ==> {
                &&& c.content@ == text
                &&& c.participant_id == Some(participant_id)
                &&& related ==> c.memory_type == MemoryType::Relationship
                &&& !related && factual ==> c.memory_type == MemoryType::Semantic
                &&& !related && !factual ==> c.memory_type == MemoryType::Episodic
            }
        }),
{
    let lower = lowercase(trimmed(message@));
    lemma_hits(lower, relationship_triggers());
    lemma_hits(lower, semantic_triggers());
    lemma_hits(lower, episodic_triggers());
}

/// The importance by kinds of words and length: 0.4 to begin with, 0.2 for each
/// kind, 0.1 more from 20 characters on and 0.2 more from 40 on, and never more
/// than 1.
pub proof fn importance_by_words_and_length(
    message: &str,
    participant_id: i64,
    r: Option<MemoryCandidate>,
)
    requires
        call_ensures(evaluate, (message, participant_id), r),
        r is Some,
    ensures
        ({
            let n = trimmed(message@).len();
            let lower = lowercase(trimmed(message@));
            let a = mentions_one(lower, relationship_triggers());
            let b = mentions_one(lower, semantic_triggers());
            let c = mentions_one(lower, episodic_triggers());
            let none = !a && !b && !c;
            let one = (a && !b && !c) || (!a && b && !c) || (!a && !b && c);
            let two = (a && b && !c) || (a && !b && c) || (!a && b && c);
            let bits = r->0.importance.bits;
            &&& none && n < 40 ==> bits == 0x3FE0_0000_0000_0000
            &&& none && n >= 40 ==> bits == 0x3FE3_3333_3333_3334
            &&& one && n < 20 ==> bits == 0x3FE3_3333_3333_3334
            &&& one && 20 <= n < 40 ==> bits == 0x3FE6_6666_6666_6667
            &&& one && n >= 40 ==> bits == 0x3FE9_9999_9999_999A
            &&& two && n < 20 ==> bits == 0x3FE9_9999_9999_999A
            &&& two && 20 <= n < 40 ==> bits == 0x3FEC_CCCC_CCCC_CCCD
            &&& two && n >= 40 ==> bits == 0x3FF0_0000_0000_0000
            &&& a && b && c ==> bits == 0x3FF0_0000_0000_0000
        }),
{
    let lower = lowercase(trimmed(message@));
    lemma_hits(lower, relationship_triggers());
    lemma_hits(lower, semantic_triggers());
    lemma_hits(lower, episodic_triggers());
}

/// The keywords of a memory are the words that stand in the message, each once.
pub proof fn keywords_are_the_words_that_stand(
    message: &str,
    participant_id: i64,
    r: Option<MemoryCandidate>,
    w: Seq<char>,
)
    requires
        call_ensures(evaluate, (message, participant_id), r),
        r is Some,
    ensures
        texts(r->0.keywords@).contains(w) <==> (relationship_triggers().contains(w)
            || semantic_triggers().contains(w) || episodic_triggers().contains(w)) && has_part(
            lowercase(trimmed(message@)),
            w,
        ),
        texts(r->0.keywords@).no_duplicates(),
{
    let lower = lowercase(trimmed(message@));
    lemma_found(lower, all_triggers(), w);
    let a = relationship_triggers();
    let b = semantic_triggers();
    let c = episodic_triggers();
    if all_triggers().contains(w) {
        let i = all_triggers().index_of(w);
        if i < a.len() {
            assert(a[i] == w);
        } else if i < a.len() + b.len() {
            assert(b[i - a.len()] == w);
        } else {
            assert(c[i - a.len() - b.len()] == w);
        }
    }
    if a.contains(w) {
        assert(all_triggers()[a.index_of(w)] == w);
    } else if b.contains(w) {
        assert(all_triggers()[a.len() + b.index_of(w)] == w);
    } else if c.contains(w) {
        assert(all_triggers()[a.len() + b.len() + c.index_of(w)] == w);
    }
}

proof fn lemma_found(text: Seq<char>, triggers: Seq<Seq<char>>, w: Seq<char>)
    ensures
        found_triggers(text, triggers).contains(w) <==> triggers.contains(w) && has_part(text, w),
        found_triggers(text, triggers).no_duplicates(),
    decreases triggers.len(),
{
    if triggers.len() > 0 {
        let rest = triggers.drop_last();
        let t = triggers.last();
        let before = found_triggers(text, rest);
        let all = found_triggers(text, triggers);
        lemma_found(text, rest, w);
        lemma_found(text, rest, t);
        if rest.contains(w) {
            assert(triggers[rest.index_of(w)] == w);
        }
        if triggers.contains(w) && !rest.contains(w) {
            let i = triggers.index_of(w);
            if i < rest.len() {
                assert(rest[i] == w);
            }
            assert(w == t);
        }
        assert(triggers[triggers.len() - 1] == t);
        if before.contains(w) {
            assert(all[before.index_of(w)] == w);
        }
        if all.contains(w) && !before.contains(w) {
            let i = all.index_of(w);
            if i < before.len() {
                assert(before[i] == w);
            }
            assert(w == t);
        }
        if has_part(text, t) && !before.contains(t) {
            assert(all[before.len() as int] == t);
        }
    }
}

/// What is stored of a message is what it was found to be, under the character and
/// the conversation, not stored before and as new as the moment.
pub proof fn memories_say_what_was_found(
    character_id: i64,
    conversation_id: Option<i64>,
    participant_id: i64,
    message: &str,
    now: Timestamp,
    found: Option<MemoryCandidate>,
    stored: Option<Memory>,
)
    requires
        call_ensures(evaluate, (message, participant_id), found),
        call_ensures(
            extract,
            (character_id, conversation_id, participant_id, message, now),
            stored,
        ),
    ensures
        stored is Some <==> found is Some,
        stored matches Some(m) ==> {
            &&& m.id == 0
            &&& m.character_id == character_id
            &&& m.conversation_id == conversation_id
            &&& m.content@ == found->0.content@
            &&& m.memory_type == found->0.memory_type
            &&& m.importance == found->0.importance
            &&& m.created_at == now && m.last_accessed == now
        },
{
}

} // verus!

//! Putting together what is known about a conversation.

use vstd::prelude::*;

use crate::application::behavior_engine::{find_binding, first_binding};
use crate::domain::character::{
    copy_text, text_of, Character, CharacterBinding, LorebookEntry,
};
use crate::domain::conversation::Conversation;
use crate::domain::emotion::EmotionState;
use crate::domain::memory::Memory;
use crate::domain::message::{Message, MessageContent, MixedContentSegment};
use crate::domain::relationship::Relationship;
use crate::error::{DomainError, RepositoryError, RuntimeError};
use crate::text::{
    chars_of, contains, has_part, is_space, is_whitespace, join, joined, lowercase, same_text,
    slice_text, texts, to_lowercase, trim, trimmed,
};

verus! {

/// How much of everything is taken into a context.
#[derive(Debug, Clone, Copy, PartialEq, Eq, Structural)]
pub struct ContextLimits {
    /// How many recent messages.
    pub context_limit: usize,
    /// How many memories.
    pub memory_limit: usize,
    /// How many lorebook entries.
    pub lorebook_limit: usize,
}

impl Default for ContextLimits {
    fn default() -> (r: ContextLimits)
        ensures
            r.context_limit == 20,
            r.memory_limit == 10,
            r.lorebook_limit == 5,
    {
        ContextLimits { context_limit: 20, memory_limit: 10, lorebook_limit: 5 }
    }
}

/// All that is known about a conversation for an answer in it.
#[derive(Debug)]
pub struct ConversationContext<'a> {
    pub character: &'a Character,
    pub conversation: Conversation,
    /// The last messages, the oldest first.
    pub recent_messages: Vec<Message>,
    /// The lorebook entries that the messages touch, the most important first.
    pub matching_lorebook: Vec<LorebookEntry>,
    pub binding: Option<CharacterBinding>,
    pub memory: Vec<Memory>,
    pub relationship: Option<Relationship>,
    pub current_emotion: Option<EmotionState>,
    pub scenario: Option<String>,
    pub post_history_instructions: Option<String>,
}

// ---------------------------------------------------------------------------
// The text of messages
// ---------------------------------------------------------------------------

/// The texts in the pieces of a mixed message: written text and names.
pub open spec fn segment_texts(segments: Seq<MixedContentSegment>) -> Seq<Seq<char>>
    decreases segments.len(),
{
    if segments.len() == 0 {
        Seq::empty()
    } else {
        let before = segment_texts(segments.drop_last());
        match segments.last() {
            MixedContentSegment::Text(s) => before.push(s@),
            MixedContentSegment::Mention { display_name, .. } => before.push(display_name@),
            _ => before,
        }
    }
}

/// The text of a message; empty where it has none.
pub open spec fn text_in(content: MessageContent) -> Seq<char> {
    match content {
        MessageContent::Text(s) => s@,
        MessageContent::Mixed(segments) => joined(segment_texts(segments@), " "@),
        MessageContent::Other(s) => s@,
        _ => Seq::empty(),
    }
}

/// The texts of messages.
pub open spec fn message_texts(messages: Seq<Message>) -> Seq<Seq<char>> {
    messages.map_values(|m: Message| text_in(m.content))
}

/// The texts of messages, a line each.
pub open spec fn transcript(messages: Seq<Message>) -> Seq<char> {
    joined(message_texts(messages), "\n"@)
}

/// The text of a message.
pub fn message_text(message: &Message) -> (r: String)
    ensures
        r@ == text_in(message.content),
{
    match &message.content {
        MessageContent::Text(s) => s.clone(),
        MessageContent::Mixed(segments) => {
            let mut parts: Vec<String> = Vec::new();
            let mut i: usize = 0;
            assert(segments@.take(0) =~= Seq::<MixedContentSegment>::empty());
            while i < segments.len()
                invariant
                    i <= segments@.len(),
                    texts(parts@) == segment_texts(segments@.take(i as int)),
                decreases segments@.len() - i,
            {
                let ghost before = parts@;
                assert(segments@.take(i + 1).drop_last() =~= segments@.take(i as int));
                match &segments[i] {
                    MixedContentSegment::Text(s) => {
                        parts.push(s.clone());
                        assert(texts(parts@) =~= texts(before).push(s@));
                    },
                    MixedContentSegment::Mention { participant_id: _, display_name } => {
                        parts.push(display_name.clone());
                        assert(texts(parts@) =~= texts(before).push(display_name@));
                    },
                    _ => {},
                }
                i += 1;
            }
            assert(segments@.take(i as int) =~= segments@);
            join(&parts, " ")
        },
        MessageContent::Other(s) => s.clone(),
        _ => String::new(),
    }
}

/// The texts of messages, a line each.
pub fn recent_messages_text(messages: &Vec<Message>) -> (r: String)
    ensures
        r@ == transcript(messages@),
{
    let mut lines: Vec<String> = Vec::new();
    let mut i: usize = 0;
    while i < messages.len()
        invariant
            i <= messages@.len(),
            lines@.len() == i,
            forall|j: int| 0 <= j < i ==> (#[trigger] lines@[j])@ == text_in(messages@[j].content),
        decreases messages@.len() - i,
    {
        lines.push(message_text(&messages[i]));
        i += 1;
    }
    assert(texts(lines@) =~= message_texts(messages@));
    join(&lines, "\n")
}

// ---------------------------------------------------------------------------
// Keywords
// ---------------------------------------------------------------------------

/// The character parts two keywords.
pub open spec fn separates(c: char) -> bool {
    is_space(c) || " ，。！？、；：,.!?;:()（）\"'“”‘’@#【】[]"@.contains(c)
}

/// The text is a common word of one character.
pub open spec fn stopword(s: Seq<char>) -> bool {
    s == "的"@ || s == "了"@ || s == "是"@ || s == "在"@ || s == "我"@ || s == "你"@ || s == "他"@ || s
        == "她"@ || s == "它"@ || s == "吗"@ || s == "呢"@
}

/// The piece is worth searching for: 1 to 12 characters, no stopword.
pub open spec fn worth_searching(s: Seq<char>) -> bool {
    1 <= s.len() <= 12 && !(s.len() == 1 && stopword(s))
}

/// The pieces between separators that are closed, and the one that is not yet.
pub open spec fn pieces(s: Seq<char>) -> (Seq<Seq<char>>, Seq<char>)
    decreases s.len(),
{
    if s.len() == 0 {
        (Seq::empty(), Seq::empty())
    } else {
        let (closed, open) = pieces(s.drop_last());
        if separates(s.last()) {
            (closed.push(open), Seq::empty())
        } else {
            (closed, open.push(s.last()))
        }
    }
}

/// The pieces that are worth searching for.
pub open spec fn worthwhile(parts: Seq<Seq<char>>) -> Seq<Seq<char>>
    decreases parts.len(),
{
    if parts.len() == 0 {
        Seq::empty()
    } else {
        let before = worthwhile(parts.drop_last());
        if worth_searching(parts.last()) {
            before.push(parts.last())
        } else {
            before
        }
    }
}

/// The keywords of a text.
pub open spec fn keywords(s: Seq<char>) -> Seq<Seq<char>> {
    let (closed, open) = pieces(s);
    worthwhile(closed.push(open))
}

fn is_separator(c: char, delimiters: &Vec<char>) -> (r: bool)
    requires
        delimiters@ == " ，。！？、；：,.!?;:()（）\"'“”‘’@#【】[]"@,
    ensures
        r == separates(c),
{
    if is_whitespace(c) {
        return true;
    }
    let mut i: usize = 0;
    while i < delimiters.len()
        invariant
            i <= delimiters@.len(),
            delimiters@ == " ，。！？、；：,.!?;:()（）\"'“”‘’@#【】[]"@,
            forall|j: int| 0 <= j < i ==> delimiters@[j] != c,
        decreases delimiters@.len() - i,
    {
        if delimiters[i] == c {
            assert(delimiters@.contains(c));
            return true;
        }
        i += 1;
    }
    assert(!delimiters@.contains(c));
    false
}

fn is_stopword(s: &str) -> (r: bool)
    ensures
        r == stopword(s@),
{
    same_text(s, "的") || same_text(s, "了") || same_text(s, "是") || same_text(s, "在") || same_text(
        s,
        "我",
    ) || same_text(s, "你") || same_text(s, "他") || same_text(s, "她") || same_text(s, "它")
        || same_text(s, "吗") || same_text(s, "呢")
}

fn keep_piece(kept: &mut Vec<String>, v: &Vec<char>, from: usize, to: usize)
    requires
        from <= to <= v@.len(),
    ensures
        texts(final(kept)@) == if worth_searching(v@.subrange(from as int, to as int)) {
            texts(old(kept)@).push(v@.subrange(from as int, to as int))
        } else {
            texts(old(kept)@)
        },
{
    let n: usize = to - from;
    if n < 1 || n > 12 {
        return;
    }
    let piece = slice_text(v, from, to);
    if n == 1 && is_stopword(piece.as_str()) {
        return;
    }
    let ghost before = kept@;
    kept.push(piece);
    assert(texts(kept@) =~= texts(before).push(piece@));
}

/// Picks the keywords out of a text: the pieces between white space and
/// punctuation of 1 to 12 characters, without common words of one character.
pub fn extract_keywords(text: &str) -> (r: Vec<String>)
    ensures
        texts(r@) == keywords(text@),
{
    let delimiters = chars_of(" ，。！？、；：,.!?;:()（）\"'“”‘’@#【】[]");
    let v = chars_of(text);
    let mut kept: Vec<String> = Vec::new();
    let mut start: usize = 0;
    let mut i: usize = 0;
    assert(v@.take(0) =~= Seq::<char>::empty());
    assert(texts(kept@) =~= Seq::<Seq<char>>::empty());
    assert(v@.subrange(0, 0) =~= Seq::<char>::empty());
    while i < v.len()
        invariant
            start <= i <= v@.len(),
            delimiters@ == " ，。！？、；：,.!?;:()（）\"'“”‘’@#【】[]"@,
            pieces(v@.take(i as int)).1 == v@.subrange(start as int, i as int),
            texts(kept@) == worthwhile(pieces(v@.take(i as int)).0),
        decreases v@.len() - i,
    {
        let ghost closed = pieces(v@.take(i as int)).0;
        let ghost open = pieces(v@.take(i as int)).1;
        assert(v@.take(i + 1).drop_last() =~= v@.take(i as int));
        if is_separator(v[i], &delimiters) {
            keep_piece(&mut kept, &v, start, i);
            assert(closed.push(open).drop_last() =~= closed);
            start = i + 1;
            assert(v@.subrange(start as int, i + 1) =~= Seq::<char>::empty());
        } else {
            assert(v@.subrange(start as int, i + 1) =~= v@.subrange(start as int, i as int).push(
                v@[i as int],
            ));
        }
        i += 1;
    }
    let ghost closed = pieces(text@).0;
    let ghost open = pieces(text@).1;
    assert(v@.take(i as int) =~= text@);
    keep_piece(&mut kept, &v, start, i);
    assert(closed.push(open).drop_last() =~= closed);
    kept
}

/// No character of the text parts keywords.
pub open spec fn unbroken(s: Seq<char>) -> bool {
    forall|j: int| 0 <= j < s.len() ==> !separates(#[trigger] s[j])
}

proof fn lemma_pieces_are_unbroken(s: Seq<char>)
    ensures
        forall|i: int| 0 <= i < pieces(s).0.len() ==> unbroken(#[trigger] pieces(s).0[i]),
        unbroken(pieces(s).1),
    decreases s.len(),
{
    if s.len() > 0 {
        lemma_pieces_are_unbroken(s.drop_last());
        let (closed, open) = pieces(s.drop_last());
        assert forall|i: int| 0 <= i < pieces(s).0.len() implies unbroken(
            #[trigger] pieces(s).0[i],
        ) by {
            if i < closed.len() {
                assert(pieces(s).0[i] == closed[i]);
            }
        }
    }
}

proof fn lemma_worthwhile_pieces(parts: Seq<Seq<char>>, k: int)
    requires
        0 <= k < worthwhile(parts).len(),
    ensures
        worth_searching(worthwhile(parts)[k]),
        exists|i: int| 0 <= i < parts.len() && parts[i] == worthwhile(parts)[k],
    decreases parts.len(),
{
    let before = worthwhile(parts.drop_last());
    if k < before.len() {
        lemma_worthwhile_pieces(parts.drop_last(), k);
        let i = choose|i: int| 0 <= i < parts.drop_last().len() && parts.drop_last()[i] == before[k];
        assert(parts[i] == worthwhile(parts)[k]);
    } else {
        assert(parts[parts.len() - 1] == worthwhile(parts)[k]);
    }
}

/// Every keyword has 1 to 12 characters, none of which is white space or
/// punctuation, and is no common word of one character.
pub proof fn keywords_are_clean(s: Seq<char>, k: int)
    requires
        0 <= k < keywords(s).len(),
    ensures
        worth_searching(keywords(s)[k]),
        unbroken(keywords(s)[k]),
{
    let (closed, open) = pieces(s);
    let parts = closed.push(open);
    lemma_pieces_are_unbroken(s);
    lemma_worthwhile_pieces(parts, k);
    let i = choose|i: int| 0 <= i < parts.len() && parts[i] == worthwhile(parts)[k];
    if i < closed.len() {
        assert(unbroken(pieces(s).0[i]));
    }
}

// ---------------------------------------------------------------------------
// Memories
// ---------------------------------------------------------------------------

/// Some memory has this number.
pub open spec fn has_id(memories: Seq<Memory>, id: i64) -> bool {
    exists|i: int| 0 <= i < memories.len() && #[trigger] memories[i].id == id
}

/// The memories without those whose number occurred before; the number zero, of
/// memories that are not stored, never counts as a repetition.
pub open spec fn without_repeats(memories: Seq<Memory>) -> Seq<Memory>
    decreases memories.len(),
{
    if memories.len() == 0 {
        Seq::empty()
    } else {
        let before = without_repeats(memories.drop_last());
        let m = memories.last();
        if m.id == 0 || !has_id(before, m.id) {
            before.push(m)
        } else {
            before
        }
    }
}

/// The first index at or after `from` of a memory less important than `m`; the
/// length where there is none.
pub open spec fn place_of(ranked: Seq<Memory>, m: Memory, from: int) -> int
    decreases ranked.len() - from,
{
    if from < 0 || from >= ranked.len() {
        ranked.len() as int
    } else if ranked[from].importance.below(m.importance) {
        from
    } else {
        place_of(ranked, m, from + 1)
    }
}

/// The memories by importance, the most important first, equally important ones
/// in the order in which they came.
pub open spec fn ranked(memories: Seq<Memory>) -> Seq<Memory>
    decreases memories.len(),
{
    if memories.len() == 0 {
        Seq::empty()
    } else {
        let before = ranked(memories.drop_last());
        let m = memories.last();
        before.insert(place_of(before, m, 0), m)
    }
}

/// The first so many items of a list.
pub open spec fn at_most<T>(s: Seq<T>, limit: int) -> Seq<T> {
    if s.len() <= limit {
        s
    } else {
        s.take(limit)
    }
}

/// What two lists of memories come to: no repeats, the most important first, no
/// more than the limit.
pub open spec fn merged(a: Seq<Memory>, b: Seq<Memory>, limit: int) -> Seq<Memory> {
    at_most(ranked(without_repeats(a + b)), limit)
}

proof fn lemma_place_bounds(list: Seq<Memory>, m: Memory, from: int)
    requires
        0 <= from <= list.len(),
    ensures
        from <= place_of(list, m, from) <= list.len(),
        forall|i: int|
            from <= i < place_of(list, m, from) ==> !(#[trigger] list[i]).importance.below(
                m.importance,
            ),
        place_of(list, m, from) < list.len() ==> list[place_of(list, m, from)].importance.below(
            m.importance,
        ),
    decreases list.len() - from,
{
    if from < list.len() && !list[from].importance.below(m.importance) {
        lemma_place_bounds(list, m, from + 1);
    }
}

fn knows_id(memories: &Vec<Memory>, id: i64) -> (r: bool)
    ensures
        r == has_id(memories@, id),
{
    let mut i: usize = 0;
    while i < memories.len()
        invariant
            i <= memories@.len(),
            forall|j: int| 0 <= j < i ==> (#[trigger] memories@[j]).id != id,
        decreases memories@.len() - i,
    {
        if memories[i].id == id {
            return true;
        }
        i += 1;
    }
    false
}

fn add_unrepeated(kept: &mut Vec<Memory>, more: Vec<Memory>, done: Ghost<Seq<Memory>>)
    requires
        old(kept)@ == without_repeats(done@),
    ensures
        final(kept)@ == without_repeats(done@ + more@),
{
    let mut rest = more;
    let ghost mut taken: int = 0;
    assert(done@ + more@.take(0) =~= done@);
    while rest.len() > 0
        invariant
            0 <= taken <= more@.len(),
            rest@ == more@.skip(taken),
            kept@ == without_repeats(done@ + more@.take(taken)),
        decreases rest@.len(),
    {
        let m = rest.remove(0);
        proof {
            assert(m == more@[taken]);
            assert((done@ + more@.take(taken + 1)).drop_last() =~= done@ + more@.take(taken));
            assert(rest@ =~= more@.skip(taken + 1));
            taken = taken + 1;
        }
        if m.id == 0 || !knows_id(kept, m.id) {
            kept.push(m);
        }
    }
    assert(more@.take(taken) =~= more@);
}

fn place(list: &Vec<Memory>, m: &Memory) -> (r: usize)
    ensures
        r == place_of(list@, *m, 0),
        r <= list@.len(),
{
    let mut i: usize = 0;
    while i < list.len() && !list[i].importance.less_than(m.importance)
        invariant
            i <= list@.len(),
            place_of(list@, *m, i as int) == place_of(list@, *m, 0),
        decreases list@.len() - i,
    {
        i += 1;
    }
    i
}

fn rank(memories: Vec<Memory>) -> (r: Vec<Memory>)
    ensures
        r@ == ranked(memories@),
    decreases memories@.len(),
{
    let mut rest = memories;
    match rest.pop() {
        None => rest,
        Some(m) => {
            assert(rest@ =~= memories@.drop_last());
            let mut before = rank(rest);
            let i: usize = place(&before, &m);
            before.insert(i, m);
            before
        },
    }
}

/// Merges the memories found by importance and those found by keyword.
pub fn merge_memories(
    by_importance: Vec<Memory>,
    by_keyword: Vec<Memory>,
    limit: usize,
) -> (r: Vec<Memory>)
    ensures
        r@ == merged(by_importance@, by_keyword@, limit as int),
{
    let mut kept: Vec<Memory> = Vec::new();
    let ghost none = Seq::<Memory>::empty();
    assert(none + by_importance@ =~= by_importance@);
    add_unrepeated(&mut kept, by_importance, Ghost(none));
    add_unrepeated(&mut kept, by_keyword, Ghost(by_importance@));
    let mut r = rank(kept);
    if r.len() > limit {
        r.truncate(limit);
        assert(r@ =~= ranked(without_repeats(by_importance@ + by_keyword@)).take(limit as int));
    }
    r
}

/// No number but zero occurs twice.
pub open spec fn unrepeated(memories: Seq<Memory>) -> bool {
    forall|i: int, j: int|
        0 <= i < j < memories.len() && (#[trigger] memories[i]).id == (#[trigger] memories[j]).id
            ==> memories[i].id == 0
}

/// Nothing stands before something more important.
pub open spec fn by_importance(memories: Seq<Memory>) -> bool {
    forall|i: int, j: int|
        0 <= i < j < memories.len() ==> !(#[trigger] memories[i]).importance.below(
            (#[trigger] memories[j]).importance,
        )
}

/// Every importance is a number.
pub open spec fn weighed(memories: Seq<Memory>) -> bool {
    forall|i: int| 0 <= i < memories.len() ==> !(#[trigger] memories[i]).importance.nan()
}

proof fn lemma_without_repeats(memories: Seq<Memory>)
    ensures
        unrepeated(without_repeats(memories)),
        weighed(memories) ==> weighed(without_repeats(memories)),
        forall|id: i64| #[trigger] has_id(memories, id) ==> has_id(without_repeats(memories), id),
    decreases memories.len(),
{
    if memories.len() > 0 {
        let rest = memories.drop_last();
        let m = memories.last();
        let before = without_repeats(rest);
        lemma_without_repeats(rest);
        assert forall|i: int| weighed(memories) && 0 <= i < rest.len() implies !(
        #[trigger] rest[i]).importance.nan() by {
            assert(rest[i] == memories[i]);
        }
        assert forall|id: i64| has_id(memories, id) implies has_id(
            without_repeats(memories),
            id,
        ) by {
            let i = choose|i: int| 0 <= i < memories.len() && #[trigger] memories[i].id == id;
            if i < rest.len() {
                assert(rest[i].id == id);
                assert(has_id(rest, id));
                let j = choose|j: int| 0 <= j < before.len() && #[trigger] before[j].id == id;
                assert(without_repeats(memories)[j].id == id);
            } else if m.id == 0 || !has_id(before, m.id) {
                assert(without_repeats(memories)[before.len() as int].id == id);
            }
        }
    }
}

proof fn lemma_ranked_len(memories: Seq<Memory>)
    ensures
        ranked(memories).len() == memories.len(),
    decreases memories.len(),
{
    if memories.len() > 0 {
        let before = ranked(memories.drop_last());
        lemma_ranked_len(memories.drop_last());
        lemma_place_bounds(before, memories.last(), 0);
    }
}

proof fn lemma_ranked_ids(memories: Seq<Memory>, id: i64)
    ensures
        has_id(ranked(memories), id) == has_id(memories, id),
    decreases memories.len(),
{
    if memories.len() > 0 {
        let rest = memories.drop_last();
        let m = memories.last();
        let before = ranked(rest);
        lemma_ranked_ids(rest, id);
        lemma_place_bounds(before, m, 0);
        let k = place_of(before, m, 0);
        let after = before.insert(k, m);
        if has_id(after, id) {
            let i = choose|i: int| 0 <= i < after.len() && #[trigger] after[i].id == id;
            if i == k {
                assert(memories[memories.len() - 1].id == id);
            } else {
                let j = if i < k {
                    i
                } else {
                    i - 1
                };
                assert(before[j].id == id);
                let l = choose|l: int| 0 <= l < rest.len() && #[trigger] rest[l].id == id;
                assert(memories[l].id == id);
            }
        }
        if has_id(memories, id) {
            let i = choose|i: int| 0 <= i < memories.len() && #[trigger] memories[i].id == id;
            if i < rest.len() {
                assert(rest[i].id == id);
                let j = choose|j: int| 0 <= j < before.len() && #[trigger] before[j].id == id;
                let l = if j < k {
                    j
                } else {
                    j + 1
                };
                assert(after[l].id == id);
            } else {
                assert(after[k].id == id);
            }
        }
    }
}

proof fn lemma_ranked_unrepeated(memories: Seq<Memory>)
    requires
        unrepeated(memories),
    ensures
        unrepeated(ranked(memories)),
    decreases memories.len(),
{
    if memories.len() > 0 {
        let rest = memories.drop_last();
        let m = memories.last();
        let before = ranked(rest);
        assert forall|i: int, j: int|
            0 <= i < j < rest.len() && (#[trigger] rest[i]).id == (#[trigger] rest[j]).id implies rest[i].id
            == 0 by {
            assert(memories[i].id == memories[j].id);
        }
        lemma_ranked_unrepeated(rest);
        lemma_ranked_ids(rest, m.id);
        lemma_place_bounds(before, m, 0);
        let k = place_of(before, m, 0);
        let after = before.insert(k, m);
        if m.id != 0 && has_id(before, m.id) {
            let l = choose|l: int| 0 <= l < rest.len() && #[trigger] rest[l].id == m.id;
            assert(memories[l].id == memories[memories.len() - 1].id);
            assert(false);
        }
        assert forall|i: int, j: int|
            0 <= i < j < after.len() && (#[trigger] after[i]).id == (#[trigger] after[j]).id implies after[i].id
            == 0 by {
            let a = if i < k {
                i
            } else {
                i - 1
            };
            let b = if j < k {
                j
            } else {
                j - 1
            };
            if i == k {
                assert(before[b].id == m.id);
            } else if j == k {
                assert(before[a].id == m.id);
            } else {
                assert(before[a].id == before[b].id);
            }
        }
    }
}

proof fn lemma_ranked_order(memories: Seq<Memory>)
    requires
        weighed(memories),
    ensures
        weighed(ranked(memories)),
        by_importance(ranked(memories)),
    decreases memories.len(),
{
    if memories.len() > 0 {
        let rest = memories.drop_last();
        let m = memories.last();
        let before = ranked(rest);
        assert forall|i: int| 0 <= i < rest.len() implies !(#[trigger] rest[i]).importance.nan() by {
            assert(rest[i] == memories[i]);
        }
        assert(m == memories[memories.len() - 1]);
        lemma_ranked_order(rest);
        lemma_place_bounds(before, m, 0);
        let k = place_of(before, m, 0);
        let after = before.insert(k, m);
        assert forall|i: int| 0 <= i < after.len() implies !(#[trigger] after[i]).importance.nan() by {
            if i < k {
                assert(after[i] == before[i]);
            } else if i > k {
                assert(after[i] == before[i - 1]);
            }
        }
        assert forall|i: int, j: int| 0 <= i < j < after.len() implies !(
        #[trigger] after[i]).importance.below((#[trigger] after[j]).importance) by {
            let a = if i < k {
                i
            } else {
                i - 1
            };
            let b = if j < k {
                j
            } else {
                j - 1
            };
            if i == k {
                if b > k {
                    assert(!before[k].importance.below(before[b].importance));
                }
            } else if j == k {
                assert(!before[a].importance.below(m.importance));
            } else {
                assert(!before[a].importance.below(before[b].importance));
            }
        }
    }
}

/// What two lists of memories come to holds no stored memory twice, stands in
/// the order of importance, keeps to the limit, and loses nothing but repeats
/// where the limit allows.
pub proof fn merging_keeps_the_best(a: Seq<Memory>, b: Seq<Memory>, limit: nat)
    requires
        weighed(a),
        weighed(b),
    ensures
        merged(a, b, limit as int).len() <= limit,
        unrepeated(merged(a, b, limit as int)),
        by_importance(merged(a, b, limit as int)),
        without_repeats(a + b).len() <= limit ==> forall|id: i64|
            has_id(a + b, id) ==> has_id(merged(a, b, limit as int), id),
{
    let all = a + b;
    assert(weighed(all));
    lemma_without_repeats(all);
    let kept = without_repeats(all);
    lemma_ranked_len(kept);
    lemma_ranked_unrepeated(kept);
    lemma_ranked_order(kept);
    assert forall|id: i64| kept.len() <= limit && has_id(all, id) implies has_id(
        merged(a, b, limit as int),
        id,
    ) by {
        lemma_ranked_ids(kept, id);
    }
    let r = merged(a, b, limit as int);
    assert forall|i: int, j: int| 0 <= i < j < r.len() implies !(#[trigger] r[i]).importance.below(
        (#[trigger] r[j]).importance,
    ) by {
        assert(r[i] == ranked(kept)[i] && r[j] == ranked(kept)[j]);
    }
    assert forall|i: int, j: int|
        0 <= i < j < r.len() && (#[trigger] r[i]).id == (#[trigger] r[j]).id implies r[i].id == 0 by {
        assert(r[i] == ranked(kept)[i] && r[j] == ranked(kept)[j]);
    }
}

// ---------------------------------------------------------------------------
// Lorebook
// ---------------------------------------------------------------------------

/// What a lorebook entry says.
#[verifier::ext_equal]
pub struct LorebookEntryView {
    pub keywords: Seq<Seq<char>>,
    pub content: Seq<char>,
    pub enabled: bool,
    pub priority: i32,
}

impl View for LorebookEntry {
    type V = LorebookEntryView;

    open spec fn view(&self) -> LorebookEntryView {
        LorebookEntryView {
            keywords: texts(self.keywords@),
            content: self.content@,
            enabled: self.enabled,
            priority: self.priority,
        }
    }
}

/// What the entries of a lorebook say.
pub open spec fn entries(lorebook: Seq<LorebookEntry>) -> Seq<LorebookEntryView> {
    lorebook.map_values(|e: LorebookEntry| e@)
}

fn copy_texts(list: &Vec<String>) -> (r: Vec<String>)
    ensures
        texts(r@) == texts(list@),
{
    let mut r: Vec<String> = Vec::new();
    let mut i: usize = 0;
    while i < list.len()
        invariant
            i <= list@.len(),
            r@.len() == i,
            forall|j: int| 0 <= j < i ==> (#[trigger] r@[j])@ == list@[j]@,
        decreases list@.len() - i,
    {
        r.push(list[i].clone());
        i += 1;
    }
    assert(texts(r@) =~= texts(list@));
    r
}

impl LorebookEntry {
    /// An entry that says the same.
    pub fn duplicate(&self) -> (r: LorebookEntry)
        ensures
            r@ == self@,
    {
        LorebookEntry {
            keywords: copy_texts(&self.keywords),
            content: self.content.clone(),
            enabled: self.enabled,
            priority: self.priority,
        }
    }
}

/// A keyword that is not blank stands, in lower case, in the haystack.
pub open spec fn touches(
    keywords: Seq<Seq<char>>,
    lowered: Seq<Seq<char>>,
    haystack: Seq<char>,
) -> bool {
    exists|i: int|
        0 <= i < keywords.len() && i < lowered.len() && trimmed(#[trigger] keywords[i]).len() > 0
            && has_part(haystack, lowered[i])
}

/// The entries that are switched on and touched, in their order.
pub open spec fn touched(
    list: Seq<LorebookEntryView>,
    lowered: Seq<Seq<Seq<char>>>,
    haystack: Seq<char>,
) -> Seq<LorebookEntryView>
    decreases list.len(),
{
    if list.len() == 0 {
        Seq::empty()
    } else {
        let before = touched(list.drop_last(), lowered, haystack);
        let e = list.last();
        if e.enabled && touches(e.keywords, lowered[list.len() - 1], haystack) {
            before.push(e)
        } else {
            before
        }
    }
}

/// The first index at or after `from` of an entry of lower priority; the length
/// where there is none.
pub open spec fn slot_of(list: Seq<LorebookEntryView>, priority: i32, from: int) -> int
    decreases list.len() - from,
{
    if from < 0 || from >= list.len() {
        list.len() as int
    } else if list[from].priority < priority {
        from
    } else {
        slot_of(list, priority, from + 1)
    }
}

/// The entries by priority, the highest first, entries of equal priority in the
/// order in which they came.
pub open spec fn prioritized(list: Seq<LorebookEntryView>) -> Seq<LorebookEntryView>
    decreases list.len(),
{
    if list.len() == 0 {
        Seq::empty()
    } else {
        let before = prioritized(list.drop_last());
        let e = list.last();
        before.insert(slot_of(before, e.priority, 0), e)
    }
}

/// The texts of lists of strings.
pub open spec fn text_lists(lists: Seq<Vec<String>>) -> Seq<Seq<Seq<char>>> {
    lists.map_values(|l: Vec<String>| texts(l@))
}

/// The lists in lower case.
pub open spec fn lowered_keywords(list: Seq<LorebookEntryView>) -> Seq<Seq<Seq<char>>> {
    list.map_values(|e: LorebookEntryView| e.keywords.map_values(|k: Seq<char>| lowercase(k)))
}

fn is_touched(keywords: &Vec<String>, lowered: &Vec<String>, haystack: &str) -> (r: bool)
    ensures
        r == touches(texts(keywords@), texts(lowered@), haystack@),
{
    let mut i: usize = 0;
    while i < keywords.len() && i < lowered.len()
        invariant
            i <= keywords@.len(),
            i <= lowered@.len(),
            forall|j: int|
                0 <= j < i ==> !(trimmed(#[trigger] texts(keywords@)[j]).len() > 0 && has_part(
                    haystack@,
                    texts(lowered@)[j],
                )),
        decreases keywords@.len() - i,
    {
        let word = trim(keywords[i].as_str());
        if !word.as_str().is_empty() && contains(haystack, lowered[i].as_str()) {
            assert(trimmed(texts(keywords@)[i as int]).len() > 0);
            return true;
        }
        i += 1;
    }
    false
}

fn slot(list: &Vec<LorebookEntry>, priority: i32) -> (r: usize)
    ensures
        r == slot_of(entries(list@), priority, 0),
        r <= list@.len(),
{
    let mut i: usize = 0;
    while i < list.len() && list[i].priority >= priority
        invariant
            i <= list@.len(),
            slot_of(entries(list@), priority, i as int) == slot_of(entries(list@), priority, 0),
        decreases list@.len() - i,
    {
        assert(entries(list@)[i as int] == list@[i as int]@);
        i += 1;
    }
    if i < list.len() {
        assert(entries(list@)[i as int] == list@[i as int]@);
    }
    i
}

/// Picks the entries that are switched on and touched, the highest priority
/// first. `lowered` holds the keywords of each entry in lower case, `haystack` is
/// in lower case.
pub fn select_lorebook(
    lorebook: &Vec<LorebookEntry>,
    lowered: &Vec<Vec<String>>,
    haystack: &str,
) -> (r: Vec<LorebookEntry>)
    requires
        lorebook@.len() == lowered@.len(),
    ensures
        entries(r@) == prioritized(
            touched(entries(lorebook@), text_lists(lowered@), haystack@),
        ),
{
    let mut r: Vec<LorebookEntry> = Vec::new();
    let ghost all = entries(lorebook@);
    let ghost low = text_lists(lowered@);
    let mut i: usize = 0;
    assert(all.take(0) =~= Seq::<LorebookEntryView>::empty());
    assert(entries(r@) =~= Seq::<LorebookEntryView>::empty());
    while i < lorebook.len()
        invariant
            i <= lorebook@.len() == lowered@.len(),
            all == entries(lorebook@),
            low == text_lists(lowered@),
            entries(r@) == prioritized(touched(all.take(i as int), low, haystack@)),
        decreases lorebook@.len() - i,
    {
        let entry = &lorebook[i];
        let ghost before = touched(all.take(i as int), low, haystack@);
        proof {
            assert(all.take(i + 1).drop_last() =~= all.take(i as int));
            assert(all.take(i + 1).last() == entry@);
            assert(low[i as int] == texts(lowered@[i as int]@));
        }
        if entry.enabled && is_touched(&entry.keywords, &lowered[i], haystack) {
            let k: usize = slot(&r, entry.priority);
            let ghost old_r = r@;
            r.insert(k, entry.duplicate());
            proof {
                assert(before.push(entry@).drop_last() =~= before);
                assert(entries(r@) =~= entries(old_r).insert(k as int, entry@));
            }
        }
        i += 1;
    }
    assert(all.take(i as int) =~= all);
    r
}

fn lower_all(list: &Vec<String>) -> (r: Vec<String>)
    ensures
        texts(r@) == texts(list@).map_values(|k: Seq<char>| lowercase(k)),
{
    let mut r: Vec<String> = Vec::new();
    let mut i: usize = 0;
    while i < list.len()
        invariant
            i <= list@.len(),
            r@.len() == i,
            forall|j: int| 0 <= j < i ==> (#[trigger] r@[j])@ == lowercase(list@[j]@),
        decreases list@.len() - i,
    {
        r.push(to_lowercase(list[i].as_str()));
        i += 1;
    }
    assert(texts(r@) =~= texts(list@).map_values(|k: Seq<char>| lowercase(k)));
    r
}

/// Picks the lorebook entries that the messages touch, the highest priority first.
pub fn match_lorebook(lorebook: &Vec<LorebookEntry>, messages: &Vec<Message>) -> (r: Vec<
    LorebookEntry,
>)
    ensures
        entries(r@) == prioritized(
            touched(
                entries(lorebook@),
                lowered_keywords(entries(lorebook@)),
                lowercase(transcript(messages@)),
            ),
        ),
{
    let said = recent_messages_text(messages);
    let haystack = to_lowercase(said.as_str());
    let mut lowered: Vec<Vec<String>> = Vec::new();
    let mut i: usize = 0;
    while i < lorebook.len()
        invariant
            i <= lorebook@.len(),
            lowered@.len() == i,
            forall|j: int|
                0 <= j < i ==> texts((#[trigger] lowered@[j])@) == texts(
                    lorebook@[j].keywords@,
                ).map_values(|k: Seq<char>| lowercase(k)),
        decreases lorebook@.len() - i,
    {
        lowered.push(lower_all(&lorebook[i].keywords));
        i += 1;
    }
    assert(text_lists(lowered@) =~= lowered_keywords(entries(lorebook@)));
    select_lorebook(lorebook, &lowered, haystack.as_str())
}

proof fn lemma_slot_bounds(list: Seq<LorebookEntryView>, priority: i32, from: int)
    requires
        0 <= from <= list.len(),
    ensures
        from <= slot_of(list, priority, from) <= list.len(),
        forall|i: int|
            from <= i < slot_of(list, priority, from) ==> (#[trigger] list[i]).priority >= priority,
        slot_of(list, priority, from) < list.len() ==> list[slot_of(list, priority, from)].priority
            < priority,
    decreases list.len() - from,
{
    if from < list.len() && list[from].priority >= priority {
        lemma_slot_bounds(list, priority, from + 1);
    }
}

/// The entry is switched on and touched, as one of the list.
pub open spec fn chosen_from(
    list: Seq<LorebookEntryView>,
    lowered: Seq<Seq<Seq<char>>>,
    haystack: Seq<char>,
    e: LorebookEntryView,
) -> bool {
    exists|i: int|
        0 <= i < list.len() && #[trigger] list[i] == e && e.enabled && touches(
            e.keywords,
            lowered[i],
            haystack,
        )
}

proof fn lemma_touched(
    list: Seq<LorebookEntryView>,
    lowered: Seq<Seq<Seq<char>>>,
    haystack: Seq<char>,
    k: int,
)
    requires
        0 <= k < touched(list, lowered, haystack).len(),
    ensures
        chosen_from(list, lowered, haystack, touched(list, lowered, haystack)[k]),
    decreases list.len(),
{
    let rest = list.drop_last();
    let before = touched(rest, lowered, haystack);
    let all = touched(list, lowered, haystack);
    if k < before.len() {
        lemma_touched(rest, lowered, haystack, k);
        let i = choose|i: int|
            0 <= i < rest.len() && #[trigger] rest[i] == before[k] && before[k].enabled && touches(
                before[k].keywords,
                lowered[i],
                haystack,
            );
        assert(list[i] == all[k]);
    } else {
        assert(list[list.len() - 1] == all[k]);
    }
}

proof fn lemma_prioritized(list: Seq<LorebookEntryView>)
    ensures
        prioritized(list).len() == list.len(),
        prioritized(list).to_multiset() == list.to_multiset(),
        forall|i: int, j: int|
            0 <= i < j < prioritized(list).len() ==> (#[trigger] prioritized(list)[i]).priority >= (
            #[trigger] prioritized(list)[j]).priority,
    decreases list.len(),
{
    broadcast use vstd::seq_lib::group_to_multiset_ensures;

    if list.len() > 0 {
        let rest = list.drop_last();
        let e = list.last();
        let before = prioritized(rest);
        lemma_prioritized(rest);
        lemma_slot_bounds(before, e.priority, 0);
        let k = slot_of(before, e.priority, 0);
        let after = prioritized(list);
        assert(after == before.insert(k, e));
        assert(after.to_multiset() == before.to_multiset().insert(e)) by {
            vstd::seq_lib::to_multiset_insert(before, k, e);
        }
        assert(list =~= rest.push(e));
        assert forall|i: int, j: int| 0 <= i < j < after.len() implies (
        #[trigger] after[i]).priority >= (#[trigger] after[j]).priority by {
            let a = if i < k {
                i
            } else {
                i - 1
            };
            let b = if j < k {
                j
            } else {
                j - 1
            };
            if i == k {
                if b > k {
                    assert(before[k].priority >= before[b].priority);
                }
            } else if j == k {
                assert(before[a].priority >= e.priority);
            } else {
                assert(before[a].priority >= before[b].priority);
            }
        }
    }
}

/// Every picked entry is switched on and touched, and the entries stand by
/// priority, the highest first.
pub proof fn picked_entries_matter(
    list: Seq<LorebookEntryView>,
    lowered: Seq<Seq<Seq<char>>>,
    haystack: Seq<char>,
)
    ensures
        forall|i: int|
            0 <= i < prioritized(touched(list, lowered, haystack)).len() ==> chosen_from(
                list,
                lowered,
                haystack,
                #[trigger] prioritized(touched(list, lowered, haystack))[i],
            ),
        forall|i: int, j: int|
            0 <= i < j < prioritized(touched(list, lowered, haystack)).len() ==> (
            #[trigger] prioritized(touched(list, lowered, haystack))[i]).priority >= (
            #[trigger] prioritized(touched(list, lowered, haystack))[j]).priority,
{
    broadcast use vstd::seq_lib::group_to_multiset_ensures;

    let t = touched(list, lowered, haystack);
    let p = prioritized(t);
    lemma_prioritized(t);
    assert forall|i: int| 0 <= i < p.len() implies chosen_from(
        list,
        lowered,
        haystack,
        #[trigger] p[i],
    ) by {
        assert(p.contains(p[i]));
        assert(p.to_multiset().count(p[i]) > 0);
        assert(t.to_multiset().count(p[i]) > 0);
        assert(t.contains(p[i]));
        let k = choose|k: int| 0 <= k < t.len() && t[k] == p[i];
        lemma_touched(list, lowered, haystack, k);
    }
}

// ---------------------------------------------------------------------------
// The context
// ---------------------------------------------------------------------------

/// What the storage answers when a context is built, or its failures.
pub struct BuildReads {
    pub conversation: Result<Option<Conversation>, RepositoryError>,
    pub recent_messages: Result<Vec<Message>, RepositoryError>,
    pub bindings: Result<Vec<CharacterBinding>, RepositoryError>,
    /// The most important memories of the character.
    pub by_importance: Result<Vec<Memory>, RepositoryError>,
    /// The memories found by the keywords of the recent messages; not looked at
    /// where there are no keywords.
    pub by_keyword: Result<Vec<Memory>, RepositoryError>,
    pub relationship: Result<Option<Relationship>, RepositoryError>,
    pub emotion: Result<Option<EmotionState>, RepositoryError>,
}

/// The keywords that the recent messages give for a search of the memories.
pub fn memory_keywords(messages: &Vec<Message>) -> (r: Vec<String>)
    ensures
        texts(r@) == keywords(transcript(messages@)),
{
    let said = recent_messages_text(messages);
    extract_keywords(said.as_str())
}

/// The first thing that stands in the way of a context, in the order of reading.
pub open spec fn build_failure(conversation_id: i64, reads: BuildReads) -> Option<RuntimeError> {
    if reads.conversation is Err {
        Some(RuntimeError::Repository(reads.conversation->Err_0))
    } else if reads.conversation->Ok_0 is None {
        Some(RuntimeError::Domain(DomainError::ConversationNotFound(conversation_id)))
    } else if reads.recent_messages is Err {
        Some(RuntimeError::Repository(reads.recent_messages->Err_0))
    } else if reads.bindings is Err {
        Some(RuntimeError::Repository(reads.bindings->Err_0))
    } else if reads.by_importance is Err {
        Some(RuntimeError::Repository(reads.by_importance->Err_0))
    } else if keywords(transcript(reads.recent_messages->Ok_0@)).len() > 0 && reads.by_keyword is Err {
        Some(RuntimeError::Repository(reads.by_keyword->Err_0))
    } else if reads.relationship is Err {
        Some(RuntimeError::Repository(reads.relationship->Err_0))
    } else if reads.emotion is Err {
        Some(RuntimeError::Repository(reads.emotion->Err_0))
    } else {
        None
    }
}

/// The memories that go into a context.
pub open spec fn context_memories(reads: BuildReads, limits: ContextLimits) -> Seq<Memory> {
    let found = if keywords(transcript(reads.recent_messages->Ok_0@)).len() > 0 {
        reads.by_keyword->Ok_0@
    } else {
        Seq::empty()
    };
    merged(reads.by_importance->Ok_0@, found, limits.memory_limit as int)
}

/// Puts the context of a conversation together.
pub fn build<'a>(
    character: &'a Character,
    conversation_id: i64,
    limits: ContextLimits,
    reads: BuildReads,
) -> (r: Result<ConversationContext<'a>, RuntimeError>)
    ensures
        match build_failure(conversation_id, reads) {
            Some(e) => r == Err::<ConversationContext, RuntimeError>(e),
            None => r matches Ok(ctx) && ({
                &&& ctx.character == character
                &&& ctx.conversation == reads.conversation->Ok_0->0
                &&& ctx.recent_messages == reads.recent_messages->Ok_0
                &&& entries(ctx.matching_lorebook@) == at_most(
                    prioritized(
                        touched(
                            entries(character.definition.lorebook@),
                            lowered_keywords(entries(character.definition.lorebook@)),
                            lowercase(transcript(ctx.recent_messages@)),
                        ),
                    ),
                    limits.lorebook_limit as int,
                )
                &&& ctx.binding == first_binding(reads.bindings->Ok_0@, character.id)
                &&& ctx.memory@ == context_memories(reads, limits)
                &&& ctx.relationship == reads.relationship->Ok_0
                &&& ctx.current_emotion == reads.emotion->Ok_0
                &&& text_of(ctx.scenario) == text_of(character.definition.scenario)
                &&& text_of(ctx.post_history_instructions) == text_of(
                    character.definition.post_history_instructions,
                )
            }),
        },
{
    let conversation = match reads.conversation {
        Err(e) => {
            return Err(RuntimeError::Repository(e));
        },
        Ok(None) => {
            return Err(RuntimeError::Domain(DomainError::ConversationNotFound(conversation_id)));
        },
        Ok(Some(c)) => c,
    };
    let recent_messages = match reads.recent_messages {
        Err(e) => {
            return Err(RuntimeError::Repository(e));
        },
        Ok(m) => m,
    };
    let mut matching_lorebook = match_lorebook(&character.definition.lorebook, &recent_messages);
    let ghost picked = entries(matching_lorebook@);
    if matching_lorebook.len() > limits.lorebook_limit {
        matching_lorebook.truncate(limits.lorebook_limit);
        assert(entries(matching_lorebook@) =~= picked.take(limits.lorebook_limit as int));
    }
    let binding = match reads.bindings {
        Err(e) => {
            return Err(RuntimeError::Repository(e));
        },
        Ok(list) => find_binding(list, character.id),
    };
    let by_importance = match reads.by_importance {
        Err(e) => {
            return Err(RuntimeError::Repository(e));
        },
        Ok(m) => m,
    };
    let words = memory_keywords(&recent_messages);
    assert(texts(words@).len() == words@.len());
    let by_keyword = if words.len() == 0 {
        Vec::new()
    } else {
        match reads.by_keyword {
            Err(e) => {
                return Err(RuntimeError::Repository(e));
            },
            Ok(m) => m,
        }
    };
    let memory = merge_memories(by_importance, by_keyword, limits.memory_limit);
    let relationship = match reads.relationship {
        Err(e) => {
            return Err(RuntimeError::Repository(e));
        },
        Ok(rel) => rel,
    };
    let current_emotion = match reads.emotion {
        Err(e) => {
            return Err(RuntimeError::Repository(e));
        },
        Ok(e) => e,
    };
    Ok(
        ConversationContext {
            character,
            conversation,
            recent_messages,
            matching_lorebook,
            binding,
            memory,
            relationship,
            current_emotion,
            scenario: copy_text(&character.definition.scenario),
            post_history_instructions: copy_text(&character.definition.post_history_instructions),
        },
    )
}

// ---------------------------------------------------------------------------
// Laws
// ---------------------------------------------------------------------------

/// The text of a message that is text stands in the transcript, and so do the
/// written pieces and the names of those mentioned in a mixed message.
pub proof fn transcripts_hold_what_was_said(messages: Seq<Message>, i: int, k: int)
    requires
        0 <= i < messages.len(),
    ensures
        messages[i].content matches MessageContent::Text(s) ==> has_part(
            transcript(messages),
            s@,
        ),
        messages[i].content matches MessageContent::Other(s) ==> has_part(
            transcript(messages),
            s@,
        ),
        messages[i].content matches MessageContent::Mixed(segments) ==> {
            &&& 0 <= k < segments@.len() && segments@[k] is Text ==> has_part(
                transcript(messages),
                segments@[k]->Text_0@,
            )
            &&& 0 <= k < segments@.len() && segments@[k] is Mention ==> has_part(
                transcript(messages),
                segments@[k]->display_name@,
            )
        },
{
    let lines = message_texts(messages);
    assert(lines[i] == text_in(messages[i].content));
    crate::text::joining_keeps_every_part(lines, "\n"@, i);
    if let MessageContent::Mixed(segments) = messages[i].content {
        if 0 <= k < segments@.len() && (segments@[k] is Text || segments@[k] is Mention) {
            let said = if segments@[k] is Text {
                segments@[k]->Text_0@
            } else {
                segments@[k]->display_name@
            };
            lemma_segment_texts(segments@, k, said);
            let at = segment_texts(segments@).index_of(said);
            crate::text::joining_keeps_every_part(segment_texts(segments@), " "@, at);
            crate::text::a_part_of_a_part(transcript(messages), lines[i], said);
        }
    }
}

proof fn lemma_segment_texts(segments: Seq<MixedContentSegment>, k: int, said: Seq<char>)
    requires
        0 <= k < segments.len(),
        (segments[k] is Text && segments[k]->Text_0@ == said) || (segments[k] is Mention
            && segments[k]->display_name@ == said),
    ensures
        segment_texts(segments).contains(said),
    decreases segments.len(),
{
    let before = segment_texts(segments.drop_last());
    if k < segments.len() - 1 {
        lemma_segment_texts(segments.drop_last(), k, said);
        let at = before.index_of(said);
        assert(segment_texts(segments)[at] == said);
    } else {
        assert(segment_texts(segments)[before.len() as int] == said);
    }
}

/// The texts of two runs of messages stand one below the other, and pictures and
/// the like leave an empty line.
pub proof fn transcripts_have_a_line_each(messages: Seq<Message>, m: Message)
    ensures
        transcript(Seq::empty()) == Seq::<char>::empty(),
        transcript(seq![m]) == text_in(m.content),
        messages.len() > 0 ==> transcript(messages.push(m)) == transcript(messages) + seq!['\n']
            + text_in(m.content),
        m.content matches MessageContent::Text(s) ==> text_in(m.content) == s@,
        m.content matches MessageContent::Other(s) ==> text_in(m.content) == s@,
{
    reveal_strlit("\n");
    assert("\n"@ =~= seq!['\n']);
    assert(message_texts(Seq::<Message>::empty()) =~= Seq::empty());
    assert(message_texts(seq![m]) =~= seq![text_in(m.content)]);
    assert(message_texts(messages.push(m)) =~= message_texts(messages).push(text_in(m.content)));
    crate::text::joining_parts_neighbours(message_texts(messages), text_in(m.content), "\n"@);
}

/// White space, Chinese and English punctuation, brackets, quotes, `@` and `#` part
/// keywords; letters, digits and Chinese characters do not.
pub proof fn what_parts_keywords(c: char)
    ensures
        is_space(c) ==> separates(c),
        c == '，' || c == '。' || c == '！' || c == '？' || c == '、' || c == '；' || c == '：' || c
            == ',' || c == '.' || c == '!' || c == '?' || c == ';' || c == ':' || c == '(' || c
            == ')' || c == '（' || c == '）' || c == '"' || c == '\'' || c == '“' || c == '”' || c
            == '‘' || c == '’' || c == '@' || c == '#' || c == '【' || c == '】' || c == '[' || c
            == ']' ==> separates(c),
        'a' <= c <= 'z' || 'A' <= c <= 'Z' || '0' <= c <= '9' || c == '-' || c == '_' || c == '/'
            || c == '+' || c == '%' ==> !separates(c),
        0x4E00 <= c as u32 <= 0x9FFF ==> !separates(c),
{
    reveal_strlit(" ，。！？、；：,.!?;:()（）\"'“”‘’@#【】[]");
    let list = " ，。！？、；：,.!?;:()（）\"'“”‘’@#【】[]"@;
    assert(list[1] == '，' && list[2] == '。' && list[3] == '！' && list[4] == '？' && list[5] == '、'
        && list[6] == '；' && list[7] == '：' && list[8] == ',' && list[9] == '.' && list[10] == '!'
        && list[11] == '?' && list[12] == ';' && list[13] == ':' && list[14] == '(' && list[15]
        == ')' && list[16] == '（' && list[17] == '）' && list[18] == '"' && list[19] == '\''
        && list[20] == '“' && list[21] == '”' && list[22] == '‘' && list[23] == '’' && list[24]
        == '@' && list[25] == '#' && list[26] == '【' && list[27] == '】' && list[28] == '['
        && list[29] == ']');
}

/// Every run of 1 to 12 characters between two separators, or the ends of the text,
/// is a keyword, unless it is a common word of one character.
pub proof fn no_keyword_is_missed(before: Seq<char>, word: Seq<char>, after: Seq<char>)
    requires
        before.len() == 0 || separates(before.last()),
        after.len() == 0 || separates(after[0]),
        forall|j: int| 0 <= j < word.len() ==> !separates(#[trigger] word[j]),
        1 <= word.len() <= 12,
        word.len() == 1 ==> word[0] != '的' && word[0] != '了' && word[0] != '是' && word[0] != '在'
            && word[0] != '我' && word[0] != '你' && word[0] != '他' && word[0] != '她' && word[0]
            != '它' && word[0] != '吗' && word[0] != '呢',
    ensures
        keywords(before + word + after).contains(word),
{
    lemma_stopwords(word);
    lemma_pieces_open(before, word);
    let s = before + word;
    lemma_pieces_closed(s, word, after);
    let (closed, open) = pieces(s + after);
    let parts = closed.push(open);
    assert(parts.contains(word)) by {
        if after.len() == 0 {
            assert(s + after =~= s);
            assert(parts[closed.len() as int] == word);
        } else {
            let k = closed.index_of(word);
            assert(parts[k] == word);
        }
    }
    lemma_worthwhile_keeps(parts, word);
}

/// Common words of one character are no keywords.
pub proof fn common_words_are_no_keywords(s: Seq<char>, c: char)
    requires
        c == '的' || c == '了' || c == '是' || c == '在' || c == '我' || c == '你' || c == '他' || c == '她'
            || c == '它' || c == '吗' || c == '呢',
    ensures
        !keywords(s).contains(seq![c]),
{
    if keywords(s).contains(seq![c]) {
        let k = keywords(s).index_of(seq![c]);
        keywords_are_clean(s, k);
        lemma_stopwords(seq![c]);
    }
}

proof fn lemma_stopwords(word: Seq<char>)
    ensures
        word.len() == 1 ==> (stopword(word) <==> word[0] == '的' || word[0] == '了' || word[0] == '是'
            || word[0] == '在' || word[0] == '我' || word[0] == '你' || word[0] == '他' || word[0] == '她'
            || word[0] == '它' || word[0] == '吗' || word[0] == '呢'),
{
    reveal_strlit("的");
    reveal_strlit("了");
    reveal_strlit("是");
    reveal_strlit("在");
    reveal_strlit("我");
    reveal_strlit("你");
    reveal_strlit("他");
    reveal_strlit("她");
    reveal_strlit("它");
    reveal_strlit("吗");
    reveal_strlit("呢");
    if word.len() == 1 {
        assert(word =~= seq![word[0]]);
        assert("的"@ =~= seq!['的']);
        assert("了"@ =~= seq!['了']);
        assert("是"@ =~= seq!['是']);
        assert("在"@ =~= seq!['在']);
        assert("我"@ =~= seq!['我']);
        assert("你"@ =~= seq!['你']);
        assert("他"@ =~= seq!['他']);
        assert("她"@ =~= seq!['她']);
        assert("它"@ =~= seq!['它']);
        assert("吗"@ =~= seq!['吗']);
        assert("呢"@ =~= seq!['呢']);
    }
}

proof fn lemma_pieces_open(before: Seq<char>, word: Seq<char>)
    requires
        before.len() == 0 || separates(before.last()),
        forall|j: int| 0 <= j < word.len() ==> !separates(#[trigger] word[j]),
    ensures
        pieces(before + word).1 == word,
    decreases word.len(),
{
    if word.len() == 0 {
        assert(before + word =~= before);
        assert(word =~= Seq::<char>::empty());
    } else {
        let rest = word.drop_last();
        assert forall|j: int| 0 <= j < rest.len() implies !separates(#[trigger] rest[j]) by {
            assert(rest[j] == word[j]);
        }
        lemma_pieces_open(before, rest);
        assert((before + word).drop_last() =~= before + rest);
        assert(!separates(word[word.len() - 1]));
        assert(rest.push(word.last()) =~= word);
    }
}

proof fn lemma_pieces_closed(s: Seq<char>, word: Seq<char>, after: Seq<char>)
    requires
        pieces(s).1 == word,
        after.len() == 0 || separates(after[0]),
    ensures
        after.len() > 0 ==> pieces(s + after).0.contains(word),
        after.len() == 0 ==> pieces(s + after).1 == word,
    decreases after.len(),
{
    if after.len() == 0 {
        assert(s + after =~= s);
    } else {
        let rest = after.drop_last();
        assert((s + after).drop_last() =~= s + rest);
        lemma_pieces_closed(s, word, rest);
        let (closed, open) = pieces(s + rest);
        let all = pieces(s + after).0;
        if rest.len() == 0 {
            assert(all[closed.len() as int] == word);
        } else {
            let k = closed.index_of(word);
            assert(all[k] == word);
        }
    }
}

proof fn lemma_worthwhile_keeps(parts: Seq<Seq<char>>, word: Seq<char>)
    requires
        parts.contains(word),
        worth_searching(word),
    ensures
        worthwhile(parts).contains(word),
    decreases parts.len(),
{
    let rest = parts.drop_last();
    let before = worthwhile(rest);
    if rest.contains(word) {
        lemma_worthwhile_keeps(rest, word);
        let k = before.index_of(word);
        assert(worthwhile(parts)[k] == word);
    } else {
        let k = parts.index_of(word);
        assert(k == parts.len() - 1) by {
            if k < rest.len() {
                assert(rest[k] == word);
            }
        }
        assert(worthwhile(parts)[before.len() as int] == word);
    }
}

/// The memory at this place does not repeat one before it: it is not stored yet, or
/// its number is new.
pub open spec fn first_of_its_number(memories: Seq<Memory>, i: int) -> bool {
    memories[i].id == 0 || forall|j: int|
        0 <= j < i ==> (#[trigger] memories[j]).id != memories[i].id
}

/// Merging makes nothing up, and of memories with one number it keeps the first; a
/// memory that is no repetition is lost only where the limit is used up by memories
/// that matter no less.
pub proof fn merging_loses_the_least(
    a: Vec<Memory>,
    b: Vec<Memory>,
    limit: usize,
    r: Vec<Memory>,
    i: int,
    k: int,
)
    requires
        call_ensures(merge_memories, (a, b, limit), r),
        weighed(a@),
        weighed(b@),
    ensures
        r@.len() <= limit,
        0 <= k < r@.len() ==> exists|j: int|
            0 <= j < (a@ + b@).len() && #[trigger] (a@ + b@)[j] == r@[k] && first_of_its_number(
                a@ + b@,
                j,
            ),
        0 <= i < (a@ + b@).len() && first_of_its_number(a@ + b@, i) ==> r@.contains((a@ + b@)[i])
            || (r@.len() == limit && forall|j: int|
            0 <= j < r@.len() ==> !(#[trigger] r@[j]).importance.below((a@ + b@)[i].importance)),
{
    let all = a@ + b@;
    let kept = without_repeats(all);
    let whole = ranked(kept);
    assert(weighed(all));
    lemma_without_repeats(all);
    lemma_ranked_order(kept);
    lemma_ranked_len(kept);
    lemma_ranked_multiset(kept);
    broadcast use vstd::seq_lib::group_to_multiset_ensures;

    if 0 <= k < r@.len() {
        assert(r@[k] == whole[k]);
        assert(whole.contains(whole[k]));
        assert(kept.to_multiset().count(whole[k]) > 0);
        assert(kept.contains(whole[k]));
        lemma_kept_are_first(all, kept.index_of(whole[k]));
    }
    if 0 <= i < all.len() && first_of_its_number(all, i) {
        lemma_first_are_kept(all, i);
        assert(whole.to_multiset().count(all[i]) > 0);
        assert(whole.contains(all[i]));
        let at = whole.index_of(all[i]);
        if at < r@.len() {
            assert(r@[at] == all[i]);
        } else {
            assert forall|j: int| 0 <= j < r@.len() implies !(#[trigger] r@[j]).importance.below(
                all[i].importance,
            ) by {
                assert(!whole[j].importance.below(whole[at].importance));
            }
        }
    }
}

/// Where nothing repeats and the limit suffices, merging only puts the memories of
/// both lists in order, those that matter equally in the order in which they came.
pub proof fn merging_keeps_equals_in_order(
    a: Vec<Memory>,
    b: Vec<Memory>,
    limit: usize,
    r: Vec<Memory>,
    level: int,
)
    requires
        call_ensures(merge_memories, (a, b, limit), r),
        weighed(a@),
        weighed(b@),
        unrepeated(a@ + b@),
        a@.len() + b@.len() <= limit,
    ensures
        r@.to_multiset() == (a@ + b@).to_multiset(),
        r@.filter(|m: Memory| m.importance.rank() == level) == (a@ + b@).filter(
            |m: Memory| m.importance.rank() == level,
        ),
{
    let all = a@ + b@;
    assert(weighed(all));
    lemma_nothing_repeats(all);
    lemma_ranked_len(all);
    lemma_ranked_multiset(all);
    lemma_ranked_stable(all, level);
}

proof fn lemma_nothing_repeats(memories: Seq<Memory>)
    requires
        unrepeated(memories),
    ensures
        without_repeats(memories) == memories,
    decreases memories.len(),
{
    if memories.len() > 0 {
        let rest = memories.drop_last();
        let m = memories.last();
        assert forall|i: int, j: int|
            0 <= i < j < rest.len() && (#[trigger] rest[i]).id == (#[trigger] rest[j]).id implies rest[i].id
            == 0 by {
            assert(memories[i].id == memories[j].id);
        }
        lemma_nothing_repeats(rest);
        if m.id != 0 && has_id(rest, m.id) {
            let l = choose|l: int| 0 <= l < rest.len() && #[trigger] rest[l].id == m.id;
            assert(memories[l].id == memories[memories.len() - 1].id);
        }
        assert(rest.push(m) =~= memories);
    }
}

proof fn lemma_ranked_multiset(memories: Seq<Memory>)
    ensures
        ranked(memories).to_multiset() == memories.to_multiset(),
    decreases memories.len(),
{
    broadcast use vstd::seq_lib::group_to_multiset_ensures;

    if memories.len() > 0 {
        let rest = memories.drop_last();
        let before = ranked(rest);
        lemma_ranked_multiset(rest);
        lemma_place_bounds(before, memories.last(), 0);
        vstd::seq_lib::to_multiset_insert(
            before,
            place_of(before, memories.last(), 0),
            memories.last(),
        );
        assert(memories =~= rest.push(memories.last()));
    }
}

proof fn lemma_ranked_stable(memories: Seq<Memory>, level: int)
    requires
        weighed(memories),
    ensures
        ranked(memories).filter(|m: Memory| m.importance.rank() == level) == memories.filter(
            |m: Memory| m.importance.rank() == level,
        ),
    decreases memories.len(),
{
    let pred = |m: Memory| m.importance.rank() == level;
    if memories.len() > 0 {
        let rest = memories.drop_last();
        let m = memories.last();
        let before = ranked(rest);
        assert forall|i: int| 0 <= i < rest.len() implies !(#[trigger] rest[i]).importance.nan() by {
            assert(rest[i] == memories[i]);
        }
        assert(m == memories[memories.len() - 1]);
        lemma_ranked_stable(rest, level);
        lemma_ranked_order(rest);
        lemma_place_bounds(before, m, 0);
        let k = place_of(before, m, 0);
        let head = before.take(k);
        let tail = before.skip(k);
        assert(before =~= head + tail);
        assert(before.insert(k, m) =~= head.push(m) + tail);
        Seq::filter_distributes_over_add(head, tail, pred);
        Seq::filter_distributes_over_add(head.push(m), tail, pred);
        assert(head.push(m).drop_last() =~= head);
        reveal(Seq::filter);
        if pred(m) {
            assert forall|i: int| 0 <= i < tail.len() implies !pred(#[trigger] tail[i]) by {
                assert(tail[i] == before[k + i]);
                if i > 0 {
                    assert(!before[k].importance.below(before[k + i].importance));
                }
                assert(!before[k + i].importance.nan());
            }
            tail.lemma_all_neg_filter_empty(pred);
            assert(tail.filter(pred) =~= Seq::<Memory>::empty());
            assert(before.filter(pred) =~= head.filter(pred));
            assert(before.insert(k, m).filter(pred) =~= head.filter(pred).push(m));
        }
    } else {
        reveal(Seq::filter);
    }
}

proof fn lemma_kept_are_first(memories: Seq<Memory>, k: int)
    requires
        0 <= k < without_repeats(memories).len(),
    ensures
        exists|j: int|
            0 <= j < memories.len() && #[trigger] memories[j] == without_repeats(memories)[k]
                && first_of_its_number(memories, j),
    decreases memories.len(),
{
    let rest = memories.drop_last();
    let m = memories.last();
    let before = without_repeats(rest);
    if k < before.len() {
        lemma_kept_are_first(rest, k);
        let j = choose|j: int|
            0 <= j < rest.len() && #[trigger] rest[j] == before[k] && first_of_its_number(rest, j);
        assert(memories[j] == without_repeats(memories)[k]);
        assert forall|l: int| 0 <= l < j && memories[j].id != 0 implies (#[trigger] memories[l]).id
            != memories[j].id by {
            assert(rest[l] == memories[l]);
        }
        assert(first_of_its_number(memories, j));
    } else {
        let j = memories.len() - 1;
        assert(memories[j] == without_repeats(memories)[k]);
        lemma_without_repeats(rest);
        assert forall|l: int| 0 <= l < j && m.id != 0 implies (#[trigger] memories[l]).id
            != m.id by {
            if memories[l].id == m.id {
                assert(rest[l].id == m.id);
                assert(has_id(rest, m.id));
            }
        }
        assert(first_of_its_number(memories, j));
    }
}

proof fn lemma_first_are_kept(memories: Seq<Memory>, i: int)
    requires
        0 <= i < memories.len(),
        first_of_its_number(memories, i),
    ensures
        without_repeats(memories).contains(memories[i]),
    decreases memories.len(),
{
    let rest = memories.drop_last();
    let before = without_repeats(rest);
    if i < rest.len() {
        assert forall|l: int| 0 <= l < i && rest[i].id != 0 implies (#[trigger] rest[l]).id
            != rest[i].id by {
            assert(memories[l].id != memories[i].id);
        }
        lemma_first_are_kept(rest, i);
        let at = before.index_of(rest[i]);
        assert(without_repeats(memories)[at] == memories[i]);
    } else {
        let m = memories.last();
        if m.id != 0 && has_id(before, m.id) {
            let at = choose|at: int| 0 <= at < before.len() && #[trigger] before[at].id == m.id;
            lemma_kept_are_first(rest, at);
            let j = choose|j: int|
                0 <= j < rest.len() && #[trigger] rest[j] == before[at] && first_of_its_number(
                    rest,
                    j,
                );
            assert(memories[j].id == memories[i].id);
        }
        assert(without_repeats(memories)[before.len() as int] == memories[i]);
    }
}

/// The entry is switched on and one of its keywords, whichever, that is not blank
/// stands in what was said, whether letters are capital or small.
pub open spec fn speaks_to(e: LorebookEntryView, said: Seq<char>) -> bool {
    e.enabled && exists|k: int|
        0 <= k < e.keywords.len() && trimmed(#[trigger] e.keywords[k]).len() > 0 && has_part(
            lowercase(said),
            lowercase(e.keywords[k]),
        )
}

/// An entry of the lorebook that is switched on is picked where any one of its
/// keywords, at whatever place in its list, stands in the messages, and no other
/// entry is picked.
pub proof fn touching_entries_are_picked(
    lorebook: Vec<LorebookEntry>,
    messages: Vec<Message>,
    r: Vec<LorebookEntry>,
    i: int,
    k: int,
    j: int,
)
    requires
        call_ensures(match_lorebook, (&lorebook, &messages), r),
    ensures
        0 <= i < lorebook@.len() && lorebook@[i].enabled && 0 <= k < lorebook@[i].keywords@.len()
            && trimmed(lorebook@[i].keywords@[k]@).len() > 0 && has_part(
            lowercase(transcript(messages@)),
            lowercase(lorebook@[i].keywords@[k]@),
        ) ==> exists|at: int| 0 <= at < r@.len() && (#[trigger] r@[at])@ == lorebook@[i]@,
        0 <= j < r@.len() ==> exists|from: int|
            0 <= from < lorebook@.len() && (#[trigger] lorebook@[from])@ == r@[j]@ && speaks_to(
                lorebook@[from]@,
                transcript(messages@),
            ),
        forall|x: int, y: int|
            0 <= x < y < r@.len() ==> (#[trigger] r@[x]).priority >= (#[trigger] r@[y]).priority,
{
    broadcast use vstd::seq_lib::group_to_multiset_ensures;

    let said = transcript(messages@);
    let all = entries(lorebook@);
    let pred = |e: LorebookEntryView| speaks_to(e, said);
    let picked = entries(r@);
    the_pick_is_exact(lorebook, messages, r, 0);
    if 0 <= i < lorebook@.len() && lorebook@[i].enabled && 0 <= k < lorebook@[i].keywords@.len()
        && trimmed(lorebook@[i].keywords@[k]@).len() > 0 && has_part(
        lowercase(said),
        lowercase(lorebook@[i].keywords@[k]@),
    ) {
        let e = all[i];
        assert(e.keywords[k] == lorebook@[i].keywords@[k]@);
        assert(speaks_to(e, said));
        all.lemma_filter_contains(pred, i);
        assert(picked.to_multiset().count(e) > 0);
        let at = picked.index_of(e);
        assert(r@[at]@ == e);
    }
    if 0 <= j < r@.len() {
        let e = picked[j];
        assert(e == r@[j]@);
        assert(picked.contains(e));
        assert(all.filter(pred).to_multiset().count(e) > 0);
        assert(all.filter(pred).contains(e));
        all.lemma_filter_contains_rev(pred, e);
        all.lemma_filter_pred(pred, all.filter(pred).index_of(e));
        let from = all.index_of(e);
        assert(lorebook@[from]@ == e);
    }
    lemma_prioritized(
        touched(all, lowered_keywords(all), lowercase(said)),
    );
    assert forall|x: int, y: int| 0 <= x < y < r@.len() implies (#[trigger] r@[x]).priority >= (
    #[trigger] r@[y]).priority by {
        assert(picked[x] == r@[x]@ && picked[y] == r@[y]@);
        assert(picked[x].priority >= picked[y].priority);
    }
}

/// Every entry that the messages speak to is picked as often as it stands in the
/// lorebook, and entries of one priority keep their order.
pub proof fn the_pick_is_exact(
    lorebook: Vec<LorebookEntry>,
    messages: Vec<Message>,
    r: Vec<LorebookEntry>,
    priority: int,
)
    requires
        call_ensures(match_lorebook, (&lorebook, &messages), r),
    ensures
        entries(r@).to_multiset() == entries(lorebook@).filter(
            |e: LorebookEntryView| speaks_to(e, transcript(messages@)),
        ).to_multiset(),
        entries(r@).filter(|e: LorebookEntryView| e.priority == priority) == entries(
            lorebook@,
        ).filter(|e: LorebookEntryView| speaks_to(e, transcript(messages@))).filter(
            |e: LorebookEntryView| e.priority == priority,
        ),
{
    let all = entries(lorebook@);
    let said = transcript(messages@);
    lemma_touched_is_filter(all, lowered_keywords(all), said);
    lemma_prioritized(touched(all, lowered_keywords(all), lowercase(said)));
    lemma_prioritized_stable(touched(all, lowered_keywords(all), lowercase(said)), priority);
}

proof fn lemma_touched_is_filter(
    list: Seq<LorebookEntryView>,
    lowered: Seq<Seq<Seq<char>>>,
    said: Seq<char>,
)
    requires
        list.len() <= lowered.len(),
        forall|i: int|
            0 <= i < list.len() ==> #[trigger] lowered[i] == list[i].keywords.map_values(
                |k: Seq<char>| lowercase(k),
            ),
    ensures
        touched(list, lowered, lowercase(said)) == list.filter(
            |e: LorebookEntryView| speaks_to(e, said),
        ),
    decreases list.len(),
{
    reveal(Seq::filter);
    if list.len() == 0 {
        assert(list =~= Seq::<LorebookEntryView>::empty());
    } else {
        let rest = list.drop_last();
        let e = list.last();
        let low = lowered[list.len() - 1];
        assert forall|i: int| 0 <= i < rest.len() implies #[trigger] lowered[i]
            == rest[i].keywords.map_values(|k: Seq<char>| lowercase(k)) by {
            assert(rest[i] == list[i]);
        }
        lemma_touched_is_filter(rest, lowered, said);
        assert(low.len() == e.keywords.len());
        if touches(e.keywords, low, lowercase(said)) {
            let k = choose|k: int|
                0 <= k < e.keywords.len() && k < low.len() && trimmed(
                    #[trigger] e.keywords[k],
                ).len() > 0 && has_part(lowercase(said), low[k]);
            assert(low[k] == lowercase(e.keywords[k]));
            assert(e.enabled ==> speaks_to(e, said));
        }
        if speaks_to(e, said) {
            let k = choose|k: int|
                0 <= k < e.keywords.len() && trimmed(#[trigger] e.keywords[k]).len() > 0 && has_part(
                    lowercase(said),
                    lowercase(e.keywords[k]),
                );
            assert(low[k] == lowercase(e.keywords[k]));
            assert(touches(e.keywords, low, lowercase(said)));
        }
    }
}

proof fn lemma_prioritized_stable(list: Seq<LorebookEntryView>, priority: int)
    ensures
        prioritized(list).filter(|e: LorebookEntryView| e.priority == priority) == list.filter(
            |e: LorebookEntryView| e.priority == priority,
        ),
    decreases list.len(),
{
    let pred = |e: LorebookEntryView| e.priority == priority;
    reveal(Seq::filter);
    if list.len() > 0 {
        let rest = list.drop_last();
        let e = list.last();
        let before = prioritized(rest);
        lemma_prioritized_stable(rest, priority);
        lemma_prioritized(rest);
        lemma_slot_bounds(before, e.priority, 0);
        let k = slot_of(before, e.priority, 0);
        let head = before.take(k);
        let tail = before.skip(k);
        assert(before =~= head + tail);
        assert(before.insert(k, e) =~= head.push(e) + tail);
        Seq::filter_distributes_over_add(head, tail, pred);
        Seq::filter_distributes_over_add(head.push(e), tail, pred);
        assert(head.push(e).drop_last() =~= head);
        if pred(e) {
            assert forall|i: int| 0 <= i < tail.len() implies !pred(#[trigger] tail[i]) by {
                assert(tail[i] == before[k + i]);
                if i > 0 {
                    assert(before[k].priority >= before[k + i].priority);
                }
            }
            tail.lemma_all_neg_filter_empty(pred);
            assert(tail.filter(pred) =~= Seq::<LorebookEntryView>::empty());
            assert(before.filter(pred) =~= head.filter(pred));
            assert(before.insert(k, e).filter(pred) =~= head.filter(pred).push(e));
        }
    }
}

/// A context holds the first of the picked lorebook entries, as many as the limit
/// allows, the recent messages as they were read, and the memories found by
/// importance, with those found by keyword where the messages give any keyword.
pub proof fn contexts_hold_what_was_found(
    character: Character,
    conversation_id: i64,
    limits: ContextLimits,
    reads: BuildReads,
    ctx: ConversationContext,
    picked: Vec<LorebookEntry>,
    memories: Vec<Memory>,
)
    requires
        call_ensures(
            build,
            (&character, conversation_id, limits, reads),
            Ok::<ConversationContext, RuntimeError>(ctx),
        ),
        call_ensures(
            match_lorebook,
            (&character.definition.lorebook, &ctx.recent_messages),
            picked,
        ),
        reads.by_importance is Ok && reads.by_keyword is Ok && call_ensures(
            merge_memories,
            (reads.by_importance->Ok_0, reads.by_keyword->Ok_0, limits.memory_limit),
            memories,
        ),
    ensures
        *ctx.character == character,
        reads.conversation == Ok::<Option<Conversation>, RepositoryError>(Some(ctx.conversation)),
        reads.recent_messages == Ok::<Vec<Message>, RepositoryError>(ctx.recent_messages),
        ctx.matching_lorebook@.len() == if picked@.len() <= limits.lorebook_limit {
            picked@.len()
        } else {
            limits.lorebook_limit as nat
        },
        forall|i: int|
            0 <= i < ctx.matching_lorebook@.len() ==> (#[trigger] ctx.matching_lorebook@[i])@
                == picked@[i]@,
        keywords(transcript(ctx.recent_messages@)).len() > 0 ==> ctx.memory@ == memories@,
        reads.relationship == Ok::<Option<Relationship>, RepositoryError>(ctx.relationship),
        reads.emotion == Ok::<Option<EmotionState>, RepositoryError>(ctx.current_emotion),
        text_of(ctx.scenario) == text_of(character.definition.scenario),
        text_of(ctx.post_history_instructions) == text_of(
            character.definition.post_history_instructions,
        ),
{
    let all = entries(picked@);
    let some = entries(ctx.matching_lorebook@);
    assert(some.len() == ctx.matching_lorebook@.len());
    assert(all.len() == picked@.len());
    assert forall|i: int| 0 <= i < ctx.matching_lorebook@.len() implies (
    #[trigger] ctx.matching_lorebook@[i])@ == picked@[i]@ by {
        assert(some[i] == ctx.matching_lorebook@[i]@);
        assert(all[i] == picked@[i]@);
    }
}

/// A context is put together exactly where the conversation exists and nothing that
/// was read failed; memories are searched by keyword only where there are keywords.
pub proof fn contexts_need_every_read(
    character: Character,
    conversation_id: i64,
    limits: ContextLimits,
    reads: BuildReads,
    r: Result<ConversationContext, RuntimeError>,
)
    requires
        call_ensures(build, (&character, conversation_id, limits, reads), r),
    ensures
        r is Ok <==> {
            &&& reads.conversation matches Ok(Some(_))
            &&& reads.recent_messages is Ok
            &&& reads.bindings is Ok
            &&& reads.by_importance is Ok
            &&& reads.by_keyword is Ok || keywords(
                transcript(reads.recent_messages->Ok_0@),
            ).len() == 0
            &&& reads.relationship is Ok
            &&& reads.emotion is Ok
        },
        (reads.conversation matches Ok(None)) ==> r == Err::<ConversationContext, RuntimeError>(
            RuntimeError::Domain(DomainError::ConversationNotFound(conversation_id)),
        ),
{
}

/// Every run of the messages between two separators that is fit to be a keyword is
/// searched for.
pub proof fn messages_are_searched_by_every_keyword(
    messages: Vec<Message>,
    r: Vec<String>,
    before: Seq<char>,
    word: Seq<char>,
    after: Seq<char>,
)
    requires
        call_ensures(memory_keywords, (&messages,), r),
        transcript(messages@) == before + word + after,
        before.len() == 0 || separates(before.last()),
        after.len() == 0 || separates(after[0]),
        forall|j: int| 0 <= j < word.len() ==> !separates(#[trigger] word[j]),
        1 < word.len() <= 12,
    ensures
        exists|k: int| 0 <= k < r@.len() && (#[trigger] r@[k])@ == word,
{
    no_keyword_is_missed(before, word, after);
    let k = texts(r@).index_of(word);
    assert(texts(r@)[k] == r@[k]@);
}

/// The keywords of a text are runs of it, one to twelve characters long.
pub proof fn extracted_keywords_are_runs(text: &str, r: Vec<String>, k: int)
    requires
        call_ensures(extract_keywords, (text,), r),
        0 <= k < r@.len(),
    ensures
        1 <= r@[k]@.len() <= 12,
        has_part(text@, r@[k]@),
        forall|j: int| 0 <= j < r@[k]@.len() ==> !is_space(#[trigger] r@[k]@[j]),
{
    let s = text@;
    assert(texts(r@)[k] == r@[k]@);
    keywords_are_clean(s, k);
    let (closed, open) = pieces(s);
    let parts = closed.push(open);
    lemma_worthwhile_pieces(parts, k);
    let i = choose|i: int| 0 <= i < parts.len() && parts[i] == worthwhile(parts)[k];
    lemma_pieces_are_parts(s);
    if i < closed.len() {
        assert(has_part(s, pieces(s).0[i]));
    }
    assert forall|j: int| 0 <= j < r@[k]@.len() implies !is_space(#[trigger] r@[k]@[j]) by {
        assert(!separates(keywords(s)[k][j]));
    }
}

proof fn lemma_pieces_are_parts(s: Seq<char>)
    ensures
        forall|i: int| 0 <= i < pieces(s).0.len() ==> has_part(s, #[trigger] pieces(s).0[i]),
        has_part(s, pieces(s).1),
        pieces(s).1.len() <= s.len(),
        s.skip(s.len() - pieces(s).1.len()) == pieces(s).1,
    decreases s.len(),
{
    if s.len() > 0 {
        let rest = s.drop_last();
        lemma_pieces_are_parts(rest);
        let (closed, open) = pieces(rest);
        assert(s =~= Seq::empty() + rest + seq![s.last()]);
        assert forall|i: int| 0 <= i < pieces(s).0.len() implies has_part(
            s,
            #[trigger] pieces(s).0[i],
        ) by {
            let part = if i < closed.len() {
                closed[i]
            } else {
                open
            };
            assert(has_part(rest, part));
            crate::text::longer_texts_keep_parts(Seq::empty(), rest, seq![s.last()], part);
        }
        if !separates(s.last()) {
            assert(s.skip(s.len() - pieces(s).1.len()) =~= open.push(s.last()));
        } else {
            assert(s.skip(s.len() as int) =~= Seq::<char>::empty());
        }
    } else {
        assert(s.skip(0) =~= Seq::<char>::empty());
    }
    let n = s.len() - pieces(s).1.len();
    assert(s.subrange(n, s.len() as int) =~= pieces(s).1);
    assert(crate::text::occurs_at(s, pieces(s).1, n));
}

/// The text of a message is what it holds: a text itself, of a mixed message what was
/// written and the names of those mentioned, a blank between them; pictures and files
/// have none.
pub proof fn messages_hold_their_text(message: Message, r: String, k: int)
    requires
        call_ensures(message_text, (&message,), r),
    ensures
        message.content matches MessageContent::Text(s) ==> r@ == s@,
        message.content matches MessageContent::Other(s) ==> r@ == s@,
        message.content is Image || message.content is File ==> r@.len() == 0,
        message.content matches MessageContent::Mixed(segments) ==> (0 <= k < segments@.len()
            && segments@[k] is Text ==> has_part(r@, segments@[k]->Text_0@)),
        message.content matches MessageContent::Mixed(segments) ==> (0 <= k < segments@.len()
            && segments@[k] is Mention ==> has_part(r@, segments@[k]->display_name@)),
{
    if let MessageContent::Mixed(segments) = message.content {
        if 0 <= k < segments@.len() && (segments@[k] is Text || segments@[k] is Mention) {
            let said = if segments@[k] is Text {
                segments@[k]->Text_0@
            } else {
                segments@[k]->display_name@
            };
            lemma_segment_texts(segments@, k, said);
            let at = segment_texts(segments@).index_of(said);
            crate::text::joining_keeps_every_part(segment_texts(segments@), " "@, at);
        }
    }
}

/// A mixed message is the text of its pieces in their order: pictures are passed over,
/// and everything else comes with a blank before it, but for the first.
pub proof fn mixed_messages_go_piece_by_piece(
    segments: Seq<MixedContentSegment>,
    next: MixedContentSegment,
)
    ensures
        segment_texts(Seq::empty()).len() == 0,
        next is Image ==> segment_texts(segments.push(next)) == segment_texts(segments),
        next matches MixedContentSegment::Text(s) ==> segment_texts(segments.push(next))
            == segment_texts(segments).push(s@),
        next matches MixedContentSegment::Mention { display_name, .. } ==> segment_texts(
            segments.push(next),
        ) == segment_texts(segments).push(display_name@),
{
    assert(segments.push(next).drop_last() =~= segments);
}

/// Merged memories stand by importance, the most important first, and no stored memory
/// stands among them twice.
pub proof fn merged_memories_stand_in_order(
    a: Vec<Memory>,
    b: Vec<Memory>,
    limit: usize,
    r: Vec<Memory>,
    i: int,
    j: int,
)
    requires
        call_ensures(merge_memories, (a, b, limit), r),
        weighed(a@),
        weighed(b@),
        0 <= i < j < r@.len(),
    ensures
        !r@[i].importance.below(r@[j].importance),
        r@[i].id == r@[j].id ==> r@[i].id == 0,
{
    merging_keeps_the_best(a@, b@, limit as nat);
}

/// Without a keyword in the messages a context holds the memories found by importance
/// alone; its binding is the character's first.
pub proof fn contexts_without_keywords(
    character: Character,
    conversation_id: i64,
    limits: ContextLimits,
    reads: BuildReads,
    ctx: ConversationContext,
    nothing: Vec<Memory>,
    memories: Vec<Memory>,
    found: Option<CharacterBinding>,
)
    requires
        call_ensures(
            build,
            (&character, conversation_id, limits, reads),
            Ok::<ConversationContext, RuntimeError>(ctx),
        ),
        nothing@.len() == 0,
        reads.by_importance is Ok && call_ensures(
            merge_memories,
            (reads.by_importance->Ok_0, nothing, limits.memory_limit),
            memories,
        ),
        reads.bindings is Ok && call_ensures(
            find_binding,
            (reads.bindings->Ok_0, character.id),
            found,
        ),
    ensures
        keywords(transcript(ctx.recent_messages@)).len() == 0 ==> ctx.memory@ == memories@,
        ctx.binding == found,
{
    assert(nothing@ =~= Seq::<Memory>::empty());
}

/// A context takes twenty messages, ten memories and five lorebook entries, unless it
/// is told otherwise.
pub proof fn the_usual_limits(limits: ContextLimits)
    requires
        call_ensures(<ContextLimits as Default>::default, (), limits),
    ensures
        limits.context_limit == 20,
        limits.memory_limit == 10,
        limits.lorebook_limit == 5,
{
}

} // verus!

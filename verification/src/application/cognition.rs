//! The cognition layer: what the language model is told and asked.

use vstd::prelude::*;

use crate::application::context::ConversationContext;
use crate::application::llm_scheduler::{LlmMessage, LlmRequest, LlmRole, RequestOrigin};
use crate::domain::character::{text_of, LorebookEntry};
use crate::domain::memory::Memory;
use crate::scalar::{Scalar, EIGHT_TENTHS};
use crate::text::{
    begins_with, concat, has_part, join, joined, longer_texts_keep_parts, owned, texts,
    the_middle_is_a_part,
};

verus! {

/// The figures of a relationship, each written with two decimals.
#[derive(Debug)]
pub struct RelationshipFigures {
    pub familiarity: String,
    pub affection: String,
    pub trust: String,
    pub annoyance: String,
    pub intimacy: String,
}

/// The figures of an emotion, each written with two decimals.
#[derive(Debug)]
pub struct EmotionFigures {
    pub happiness: String,
    pub anger: String,
    pub sadness: String,
    pub fear: String,
    pub affection: String,
    pub stress: String,
    pub energy: String,
}

/// The part under a label, where there is one.
pub open spec fn labelled(label: Seq<char>, s: Option<Seq<char>>) -> Seq<Seq<char>> {
    match s {
        Some(t) => seq![label + t],
        None => Seq::empty(),
    }
}

/// The contents of lorebook entries.
pub open spec fn lore_texts(list: Seq<LorebookEntry>) -> Seq<Seq<char>> {
    list.map_values(|e: LorebookEntry| e.content@)
}

/// The contents of memories, each as an item of a list.
pub open spec fn memory_texts(list: Seq<Memory>) -> Seq<Seq<char>> {
    list.map_values(|m: Memory| "- "@ + m.content@)
}

/// A heading with lines under it, where there are any.
pub open spec fn headed(heading: Seq<char>, lines: Seq<Seq<char>>) -> Seq<Seq<char>> {
    if lines.len() > 0 {
        seq![heading + joined(lines, "\n"@)]
    } else {
        Seq::empty()
    }
}

/// The line on a relationship.
pub open spec fn relationship_line(f: RelationshipFigures) -> Seq<char> {
    "关系：熟悉度 "@ + f.familiarity@ + "、好感 "@ + f.affection@ + "、信任 "@ + f.trust@ + "、厌烦 "@
        + f.annoyance@ + "、亲密 "@ + f.intimacy@
}

/// The line on an emotion.
pub open spec fn emotion_line(f: EmotionFigures) -> Seq<char> {
    "当前情绪：开心 "@ + f.happiness@ + "、生气 "@ + f.anger@ + "、悲伤 "@ + f.sadness@ + "、害怕 "@
        + f.fear@ + "、好感 "@ + f.affection@ + "、压力 "@ + f.stress@ + "、精力 "@ + f.energy@
}

/// The parts of the system prompt.
pub open spec fn prompt_parts(
    ctx: ConversationContext,
    relationship: Option<RelationshipFigures>,
    emotion: Option<EmotionFigures>,
) -> Seq<Seq<char>> {
    let def = ctx.character.definition;
    seq!["你是"@ + def.name@ + "。"@] + labelled(Seq::empty(), text_of(def.description)) + labelled(
        "性格："@,
        text_of(def.personality),
    ) + labelled("说话风格："@, text_of(def.style)) + labelled("当前场景："@, text_of(ctx.scenario))
        + headed("相关设定：\n"@, lore_texts(ctx.matching_lorebook@)) + (match relationship {
        Some(f) => seq![relationship_line(f)],
        None => Seq::empty(),
    }) + (match emotion {
        Some(f) => seq![emotion_line(f)],
        None => Seq::empty(),
    }) + headed("相关记忆：\n"@, memory_texts(ctx.memory@)) + labelled(
        Seq::empty(),
        text_of(ctx.post_history_instructions),
    )
}

/// The system prompt.
pub open spec fn system_prompt(
    ctx: ConversationContext,
    relationship: Option<RelationshipFigures>,
    emotion: Option<EmotionFigures>,
) -> Seq<char> {
    joined(prompt_parts(ctx, relationship, emotion), "\n\n"@)
}

fn add_labelled(parts: &mut Vec<String>, label: &str, s: &Option<String>)
    ensures
        texts(final(parts)@) == texts(old(parts)@) + labelled(label@, text_of(*s)),
{
    if let Some(t) = s {
        parts.push(concat(label, t.as_str()));
    }
    assert(texts(parts@) =~= texts(old(parts)@) + labelled(label@, text_of(*s)));
}

fn add_headed(parts: &mut Vec<String>, heading: &str, lines: &Vec<String>)
    ensures
        texts(final(parts)@) == texts(old(parts)@) + headed(heading@, texts(lines@)),
{
    assert(texts(lines@).len() == lines@.len());
    if lines.len() > 0 {
        let body = join(lines, "\n");
        parts.push(concat(heading, body.as_str()));
    }
    assert(texts(parts@) =~= texts(old(parts)@) + headed(heading@, texts(lines@)));
}

fn add_line(parts: &mut Vec<String>, line: String)
    ensures
        texts(final(parts)@) == texts(old(parts)@) + seq![line@],
{
    parts.push(line);
    assert(texts(parts@) =~= texts(old(parts)@) + seq![line@]);
}

fn put(line: &mut String, label: &str, figure: &String)
    ensures
        final(line)@ == old(line)@ + label@ + figure@,
{
    line.append(label);
    line.append(figure.as_str());
}

/// Renders the system prompt from what is known. The figures are those of the
/// relationship and the emotion in the context.
pub fn render_system_prompt(
    ctx: &ConversationContext,
    relationship: &Option<RelationshipFigures>,
    emotion: &Option<EmotionFigures>,
) -> (r: String)
    requires
        relationship is Some <==> ctx.relationship is Some,
        emotion is Some <==> ctx.current_emotion is Some,
    ensures
        r@ == system_prompt(*ctx, *relationship, *emotion),
{
    let def = &ctx.character.definition;
    let mut parts: Vec<String> = Vec::new();
    let opening = concat("你是", def.name.as_str());
    parts.push(concat(opening.as_str(), "。"));
    assert(texts(parts@) =~= seq!["你是"@ + def.name@ + "。"@]);
    proof {
        reveal_strlit("");
        assert(""@ =~= Seq::<char>::empty());
    }
    add_labelled(&mut parts, "", &def.description);
    add_labelled(&mut parts, "性格：", &def.personality);
    add_labelled(&mut parts, "说话风格：", &def.style);
    add_labelled(&mut parts, "当前场景：", &ctx.scenario);

    let mut lore: Vec<String> = Vec::new();
    let mut i: usize = 0;
    while i < ctx.matching_lorebook.len()
        invariant
            i <= ctx.matching_lorebook@.len(),
            lore@.len() == i,
            forall|j: int|
                0 <= j < i ==> (#[trigger] lore@[j])@ == ctx.matching_lorebook@[j].content@,
        decreases ctx.matching_lorebook@.len() - i,
    {
        lore.push(ctx.matching_lorebook[i].content.clone());
        i += 1;
    }
    assert(texts(lore@) =~= lore_texts(ctx.matching_lorebook@));
    add_headed(&mut parts, "相关设定：\n", &lore);

    if let Some(f) = relationship {
        let mut line = String::new();
        put(&mut line, "关系：熟悉度 ", &f.familiarity);
        put(&mut line, "、好感 ", &f.affection);
        put(&mut line, "、信任 ", &f.trust);
        put(&mut line, "、厌烦 ", &f.annoyance);
        put(&mut line, "、亲密 ", &f.intimacy);
        assert(line@ =~= relationship_line(*f));
        add_line(&mut parts, line);
    }
    if let Some(f) = emotion {
        let mut line = String::new();
        put(&mut line, "当前情绪：开心 ", &f.happiness);
        put(&mut line, "、生气 ", &f.anger);
        put(&mut line, "、悲伤 ", &f.sadness);
        put(&mut line, "、害怕 ", &f.fear);
        put(&mut line, "、好感 ", &f.affection);
        put(&mut line, "、压力 ", &f.stress);
        put(&mut line, "、精力 ", &f.energy);
        assert(line@ =~= emotion_line(*f));
        add_line(&mut parts, line);
    }
    let mut memories: Vec<String> = Vec::new();
    let mut k: usize = 0;
    while k < ctx.memory.len()
        invariant
            k <= ctx.memory@.len(),
            memories@.len() == k,
            forall|j: int|
                0 <= j < k ==> (#[trigger] memories@[j])@ == "- "@ + ctx.memory@[j].content@,
        decreases ctx.memory@.len() - k,
    {
        memories.push(concat("- ", ctx.memory[k].content.as_str()));
        k += 1;
    }
    assert(texts(memories@) =~= memory_texts(ctx.memory@));
    add_headed(&mut parts, "相关记忆：\n", &memories);
    add_labelled(&mut parts, "", &ctx.post_history_instructions);
    assert(texts(parts@) =~= prompt_parts(*ctx, *relationship, *emotion));
    join(&parts, "\n\n")
}

/// The request for an answer to a message: urgent where the character was
/// mentioned.
pub fn reply_request(
    character_id: i64,
    conversation_id: i64,
    participant_id: i64,
    system: String,
    user_message: &str,
    is_mentioned: bool,
) -> (r: LlmRequest)
    ensures
        r.system == Some(system),
        r.messages@.len() == 1,
        r.messages@[0].role == LlmRole::User,
        r.messages@[0].content@ == user_message@,
        r.model is None,
        r.temperature == Some(Scalar { bits: EIGHT_TENTHS }),
        r.max_tokens is None,
        r.priority == if is_mentioned {
            0u8
        } else {
            1u8
        },
        r.origin == Some(
            (RequestOrigin { character_id, conversation_id, participant_id: Some(participant_id) }),
        ),
{
    let mut messages: Vec<LlmMessage> = Vec::new();
    messages.push(LlmMessage { role: LlmRole::User, content: owned(user_message) });
    LlmRequest {
        system: Some(system),
        messages,
        model: None,
        temperature: Some(Scalar { bits: EIGHT_TENTHS }),
        max_tokens: None,
        priority: if is_mentioned {
            0
        } else {
            1
        },
        origin: Some(
            RequestOrigin { character_id, conversation_id, participant_id: Some(participant_id) },
        ),
    }
}

// ---------------------------------------------------------------------------
// Laws
// ---------------------------------------------------------------------------

/// Each memory stands in the prompt as an item, under their heading.
pub proof fn prompts_tell_every_memory(
    ctx: ConversationContext,
    relationship: Option<RelationshipFigures>,
    emotion: Option<EmotionFigures>,
    r: String,
    m: int,
)
    requires
        call_ensures(render_system_prompt, (&ctx, &relationship, &emotion), r),
        0 <= m < ctx.memory@.len(),
    ensures
        has_part(r@, "- "@ + ctx.memory@[m].content@),
        has_part(r@, "相关记忆：\n"@ + "- "@ + ctx.memory@[0].content@),
{
    let lines = memory_texts(ctx.memory@);
    let paragraph = "相关记忆：\n"@ + joined(lines, "\n"@);
    assert(headed("相关记忆：\n"@, lines)[0] == paragraph);
    lemma_paragraph(ctx, relationship, emotion, paragraph);
    lemma_headed("相关记忆：\n"@, lines, r@, m);
    assert(lines[m] == "- "@ + ctx.memory@[m].content@);
    assert("相关记忆：\n"@ + "- "@ + ctx.memory@[0].content@ =~= "相关记忆：\n"@ + lines[0]);
}

/// Each lorebook entry of the context stands in the prompt, under their heading.
pub proof fn prompts_tell_every_entry(
    ctx: ConversationContext,
    relationship: Option<RelationshipFigures>,
    emotion: Option<EmotionFigures>,
    r: String,
    e: int,
)
    requires
        call_ensures(render_system_prompt, (&ctx, &relationship, &emotion), r),
        0 <= e < ctx.matching_lorebook@.len(),
    ensures
        has_part(r@, ctx.matching_lorebook@[e].content@),
        has_part(r@, "相关设定：\n"@ + ctx.matching_lorebook@[0].content@),
{
    let lines = lore_texts(ctx.matching_lorebook@);
    let paragraph = "相关设定：\n"@ + joined(lines, "\n"@);
    assert(headed("相关设定：\n"@, lines)[0] == paragraph);
    lemma_paragraph(ctx, relationship, emotion, paragraph);
    lemma_headed("相关设定：\n"@, lines, r@, e);
    assert(lines[e] == ctx.matching_lorebook@[e].content@);
    assert(lines[0] == ctx.matching_lorebook@[0].content@);
}

/// The description, the personality, the style, the scenario and the closing
/// instructions stand in the prompt where they are given.
pub proof fn prompts_tell_who_the_character_is(
    ctx: ConversationContext,
    relationship: Option<RelationshipFigures>,
    emotion: Option<EmotionFigures>,
    r: String,
)
    requires
        call_ensures(render_system_prompt, (&ctx, &relationship, &emotion), r),
    ensures
        ctx.character.definition.description matches Some(s) ==> has_part(r@, s@),
        ctx.character.definition.personality matches Some(s) ==> has_part(r@, "性格："@ + s@),
        ctx.character.definition.style matches Some(s) ==> has_part(r@, "说话风格："@ + s@),
        ctx.scenario matches Some(s) ==> has_part(r@, "当前场景："@ + s@),
        ctx.post_history_instructions matches Some(s) ==> has_part(r@, s@),
{
    let def = ctx.character.definition;
    let none = Seq::<char>::empty();
    if let Some(s) = def.description {
        assert(none + s@ =~= s@);
        assert(labelled(none, text_of(def.description))[0] == s@);
        lemma_paragraph(ctx, relationship, emotion, s@);
    }
    if let Some(s) = def.personality {
        assert(labelled("性格："@, text_of(def.personality))[0] == "性格："@ + s@);
        lemma_paragraph(ctx, relationship, emotion, "性格："@ + s@);
    }
    if let Some(s) = def.style {
        assert(labelled("说话风格："@, text_of(def.style))[0] == "说话风格："@ + s@);
        lemma_paragraph(ctx, relationship, emotion, "说话风格："@ + s@);
    }
    if let Some(s) = ctx.scenario {
        assert(labelled("当前场景："@, text_of(ctx.scenario))[0] == "当前场景："@ + s@);
        lemma_paragraph(ctx, relationship, emotion, "当前场景："@ + s@);
    }
    if let Some(s) = ctx.post_history_instructions {
        assert(none + s@ =~= s@);
        assert(labelled(none, text_of(ctx.post_history_instructions))[0] == s@);
        lemma_paragraph(ctx, relationship, emotion, s@);
    }
}

proof fn lemma_paragraph(
    ctx: ConversationContext,
    relationship: Option<RelationshipFigures>,
    emotion: Option<EmotionFigures>,
    s: Seq<char>,
)
    requires
        ({
            let def = ctx.character.definition;
            ||| labelled(Seq::empty(), text_of(def.description)).contains(s)
            ||| labelled("性格："@, text_of(def.personality)).contains(s)
            ||| labelled("说话风格："@, text_of(def.style)).contains(s)
            ||| labelled("当前场景："@, text_of(ctx.scenario)).contains(s)
            ||| headed("相关设定：\n"@, lore_texts(ctx.matching_lorebook@)).contains(s)
            ||| headed("相关记忆：\n"@, memory_texts(ctx.memory@)).contains(s)
            ||| labelled(Seq::empty(), text_of(ctx.post_history_instructions)).contains(s)
        }),
    ensures
        has_part(system_prompt(ctx, relationship, emotion), s),
{
    let def = ctx.character.definition;
    let none = Seq::<char>::empty();
    lemma_among(
        seq!["你是"@ + def.name@ + "。"@],
        labelled(none, text_of(def.description)),
        labelled("性格："@, text_of(def.personality)),
        labelled("说话风格："@, text_of(def.style)),
        labelled("当前场景："@, text_of(ctx.scenario)),
        headed("相关设定：\n"@, lore_texts(ctx.matching_lorebook@)),
        match relationship {
            Some(f) => seq![relationship_line(f)],
            None => Seq::empty(),
        },
        match emotion {
            Some(f) => seq![emotion_line(f)],
            None => Seq::empty(),
        },
        headed("相关记忆：\n"@, memory_texts(ctx.memory@)),
        labelled(none, text_of(ctx.post_history_instructions)),
        s,
        system_prompt(ctx, relationship, emotion),
    );
}

proof fn lemma_among(
    p0: Seq<Seq<char>>,
    p1: Seq<Seq<char>>,
    p2: Seq<Seq<char>>,
    p3: Seq<Seq<char>>,
    p4: Seq<Seq<char>>,
    p5: Seq<Seq<char>>,
    p6: Seq<Seq<char>>,
    p7: Seq<Seq<char>>,
    p8: Seq<Seq<char>>,
    p9: Seq<Seq<char>>,
    s: Seq<char>,
    prompt: Seq<char>,
)
    requires
        p0.contains(s) || p1.contains(s) || p2.contains(s) || p3.contains(s) || p4.contains(s)
            || p5.contains(s) || p6.contains(s) || p7.contains(s) || p8.contains(s) || p9.contains(
            s,
        ),
        prompt == joined(p0 + p1 + p2 + p3 + p4 + p5 + p6 + p7 + p8 + p9, "\n\n"@),
    ensures
        has_part(prompt, s),
{
    let a1 = p0 + p1;
    let a2 = a1 + p2;
    let a3 = a2 + p3;
    let a4 = a3 + p4;
    let a5 = a4 + p5;
    let a6 = a5 + p6;
    let a7 = a6 + p7;
    let a8 = a7 + p8;
    let a9 = a8 + p9;
    crate::text::either_list_holds(p0, p1, s);
    crate::text::either_list_holds(a1, p2, s);
    crate::text::either_list_holds(a2, p3, s);
    crate::text::either_list_holds(a3, p4, s);
    crate::text::either_list_holds(a4, p5, s);
    crate::text::either_list_holds(a5, p6, s);
    crate::text::either_list_holds(a6, p7, s);
    crate::text::either_list_holds(a7, p8, s);
    crate::text::either_list_holds(a8, p9, s);
    crate::text::joining_keeps_every_part(a9, "\n\n"@, a9.index_of(s));
}

/// The prompt opens with the character's name.
pub proof fn prompts_open_with_the_name(
    ctx: ConversationContext,
    relationship: Option<RelationshipFigures>,
    emotion: Option<EmotionFigures>,
    r: String,
)
    requires
        call_ensures(render_system_prompt, (&ctx, &relationship, &emotion), r),
    ensures
        begins_with(r@, "你是"@ + ctx.character.definition.name@ + "。"@),
{
    let parts = prompt_parts(ctx, relationship, emotion);
    assert(parts[0] == "你是"@ + ctx.character.definition.name@ + "。"@);
    lemma_begins(parts, "\n\n"@);
}

/// The figures of the relationship and of the emotion stand in the prompt, each
/// behind its name.
pub proof fn prompts_tell_the_figures(
    ctx: ConversationContext,
    relationship: Option<RelationshipFigures>,
    emotion: Option<EmotionFigures>,
    r: String,
)
    requires
        call_ensures(render_system_prompt, (&ctx, &relationship, &emotion), r),
    ensures
        relationship matches Some(f) ==> {
            &&& has_part(r@, "熟悉度 "@ + f.familiarity@)
            &&& has_part(r@, "好感 "@ + f.affection@)
            &&& has_part(r@, "信任 "@ + f.trust@)
            &&& has_part(r@, "厌烦 "@ + f.annoyance@)
            &&& has_part(r@, "亲密 "@ + f.intimacy@)
        },
        emotion matches Some(f) ==> {
            &&& has_part(r@, "开心 "@ + f.happiness@)
            &&& has_part(r@, "生气 "@ + f.anger@)
            &&& has_part(r@, "悲伤 "@ + f.sadness@)
            &&& has_part(r@, "害怕 "@ + f.fear@)
            &&& has_part(r@, "好感 "@ + f.affection@)
            &&& has_part(r@, "压力 "@ + f.stress@)
            &&& has_part(r@, "精力 "@ + f.energy@)
        },
{
    let def = ctx.character.definition;
    let none = Seq::<char>::empty();
    let parts = prompt_parts(ctx, relationship, emotion);
    let head = seq!["你是"@ + def.name@ + "。"@] + labelled(none, text_of(def.description))
        + labelled("性格："@, text_of(def.personality)) + labelled("说话风格："@, text_of(def.style))
        + labelled("当前场景："@, text_of(ctx.scenario)) + headed(
        "相关设定：\n"@,
        lore_texts(ctx.matching_lorebook@),
    );
    let tail = headed("相关记忆：\n"@, memory_texts(ctx.memory@)) + labelled(
        none,
        text_of(ctx.post_history_instructions),
    );
    let p6 = match relationship {
        Some(f) => seq![relationship_line(f)],
        None => Seq::empty(),
    };
    let p7 = match emotion {
        Some(f) => seq![emotion_line(f)],
        None => Seq::empty(),
    };
    assert(parts =~= head + p6 + (p7 + tail));
    assert(parts =~= (head + p6) + p7 + tail);
    if let Some(f) = relationship {
        lemma_prompted(head, p6, p7 + tail, parts, r@, 0);
        let line = relationship_line(f);
        lemma_relationship_line(f);
        crate::text::a_part_of_a_part(r@, line, "熟悉度 "@ + f.familiarity@);
        crate::text::a_part_of_a_part(r@, line, "好感 "@ + f.affection@);
        crate::text::a_part_of_a_part(r@, line, "信任 "@ + f.trust@);
        crate::text::a_part_of_a_part(r@, line, "厌烦 "@ + f.annoyance@);
        crate::text::a_part_of_a_part(r@, line, "亲密 "@ + f.intimacy@);
    }
    if let Some(f) = emotion {
        lemma_prompted(head + p6, p7, tail, parts, r@, 0);
        let line = emotion_line(f);
        lemma_emotion_line(f);
        crate::text::a_part_of_a_part(r@, line, "开心 "@ + f.happiness@);
        crate::text::a_part_of_a_part(r@, line, "生气 "@ + f.anger@);
        crate::text::a_part_of_a_part(r@, line, "悲伤 "@ + f.sadness@);
        crate::text::a_part_of_a_part(r@, line, "害怕 "@ + f.fear@);
        crate::text::a_part_of_a_part(r@, line, "好感 "@ + f.affection@);
        crate::text::a_part_of_a_part(r@, line, "压力 "@ + f.stress@);
        crate::text::a_part_of_a_part(r@, line, "精力 "@ + f.energy@);
    }
}

proof fn lemma_begins(parts: Seq<Seq<char>>, sep: Seq<char>)
    requires
        parts.len() > 0,
    ensures
        begins_with(joined(parts, sep), parts[0]),
    decreases parts.len(),
{
    let whole = joined(parts, sep);
    if parts.len() == 1 {
        assert(whole.subrange(0, whole.len() as int) =~= whole);
    } else {
        let rest = joined(parts.drop_last(), sep);
        lemma_begins(parts.drop_last(), sep);
        assert(whole.subrange(0, parts[0].len() as int) =~= rest.subrange(
            0,
            parts[0].len() as int,
        ));
    }
}

proof fn lemma_prompted(
    before: Seq<Seq<char>>,
    some: Seq<Seq<char>>,
    after: Seq<Seq<char>>,
    parts: Seq<Seq<char>>,
    prompt: Seq<char>,
    k: int,
)
    requires
        parts == before + some + after,
        prompt == joined(parts, "\n\n"@),
        0 <= k < some.len(),
    ensures
        has_part(prompt, some[k]),
{
    assert(parts[before.len() + k] == some[k]);
    crate::text::joining_keeps_every_part(parts, "\n\n"@, before.len() + k);
}

proof fn lemma_headed(heading: Seq<char>, lines: Seq<Seq<char>>, prompt: Seq<char>, k: int)
    requires
        lines.len() > 0,
        has_part(prompt, heading + joined(lines, "\n"@)),
    ensures
        0 <= k < lines.len() ==> has_part(prompt, lines[k]),
        has_part(prompt, heading + lines[0]),
{
    let list = joined(lines, "\n"@);
    let whole = heading + list;
    if 0 <= k < lines.len() {
        crate::text::joining_keeps_every_part(lines, "\n"@, k);
        longer_texts_keep_parts(heading, list, Seq::empty(), lines[k]);
        assert(heading + list + Seq::empty() =~= whole);
        crate::text::a_part_of_a_part(prompt, whole, lines[k]);
    }
    lemma_begins(lines, "\n"@);
    let first = heading + lines[0];
    let rest = list.skip(lines[0].len() as int);
    assert(list =~= lines[0] + rest) by {
        assert(list.subrange(0, lines[0].len() as int) == lines[0]);
    }
    assert(Seq::empty() + first + rest =~= whole);
    the_middle_is_a_part(Seq::empty(), first, rest);
    crate::text::a_part_of_a_part(prompt, whole, first);
}

proof fn lemma_put(line: Seq<char>, before: Seq<char>, label: Seq<char>, figure: Seq<char>)
    ensures
        has_part(line + (before + label) + figure, label + figure),
        forall|part: Seq<char>|
            #[trigger] has_part(line, part) ==> has_part(line + (before + label) + figure, part),
{
    lemma_put_last(line, before, label, figure);
    assert forall|part: Seq<char>| #[trigger] has_part(line, part) implies has_part(
        line + (before + label) + figure,
        part,
    ) by {
        lemma_longer(line, before + label, figure, part);
    }
}

proof fn lemma_put_last(line: Seq<char>, before: Seq<char>, label: Seq<char>, figure: Seq<char>)
    ensures
        has_part(line + (before + label) + figure, label + figure),
{
    let part = label + figure;
    let whole = line + (before + label) + figure;
    let n = line.len() + before.len();
    assert(whole.len() == n + part.len());
    assert(whole.subrange(n as int, n as int + part.len()) =~= part);
    assert(crate::text::occurs_at(whole, part, n as int));
}

proof fn lemma_longer(line: Seq<char>, label: Seq<char>, figure: Seq<char>, part: Seq<char>)
    requires
        has_part(line, part),
    ensures
        has_part(line + label + figure, part),
{
    longer_texts_keep_parts(Seq::empty(), line, label, part);
    assert(Seq::<char>::empty() + line + label =~= line + label);
    longer_texts_keep_parts(Seq::empty(), line + label, figure, part);
    assert(Seq::<char>::empty() + (line + label) + figure =~= line + label + figure);
}

proof fn lemma_relationship_line(f: RelationshipFigures)
    ensures
        has_part(relationship_line(f), "熟悉度 "@ + f.familiarity@),
        has_part(relationship_line(f), "好感 "@ + f.affection@),
        has_part(relationship_line(f), "信任 "@ + f.trust@),
        has_part(relationship_line(f), "厌烦 "@ + f.annoyance@),
        has_part(relationship_line(f), "亲密 "@ + f.intimacy@),
{
    reveal_strlit("关系：熟悉度 ");
    reveal_strlit("关系：");
    reveal_strlit("熟悉度 ");
    reveal_strlit("、好感 ");
    reveal_strlit("、");
    reveal_strlit("好感 ");
    reveal_strlit("、信任 ");
    reveal_strlit("信任 ");
    reveal_strlit("、厌烦 ");
    reveal_strlit("厌烦 ");
    reveal_strlit("、亲密 ");
    reveal_strlit("亲密 ");
    assert("关系：熟悉度 "@ =~= "关系："@ + "熟悉度 "@);
    assert("、好感 "@ =~= "、"@ + "好感 "@);
    assert("、信任 "@ =~= "、"@ + "信任 "@);
    assert("、厌烦 "@ =~= "、"@ + "厌烦 "@);
    assert("、亲密 "@ =~= "、"@ + "亲密 "@);
    let l0 = "关系：熟悉度 "@ + f.familiarity@;
    lemma_put(Seq::empty(), "关系："@, "熟悉度 "@, f.familiarity@);
    assert(Seq::<char>::empty() + "关系：熟悉度 "@ + f.familiarity@ =~= l0);
    let l1 = l0 + "、好感 "@ + f.affection@;
    lemma_put(l0, "、"@, "好感 "@, f.affection@);
    let l2 = l1 + "、信任 "@ + f.trust@;
    lemma_put(l1, "、"@, "信任 "@, f.trust@);
    let l3 = l2 + "、厌烦 "@ + f.annoyance@;
    lemma_put(l2, "、"@, "厌烦 "@, f.annoyance@);
    let l4 = l3 + "、亲密 "@ + f.intimacy@;
    lemma_put(l3, "、"@, "亲密 "@, f.intimacy@);
}

proof fn lemma_emotion_line(f: EmotionFigures)
    ensures
        has_part(emotion_line(f), "开心 "@ + f.happiness@),
        has_part(emotion_line(f), "生气 "@ + f.anger@),
        has_part(emotion_line(f), "悲伤 "@ + f.sadness@),
        has_part(emotion_line(f), "害怕 "@ + f.fear@),
        has_part(emotion_line(f), "好感 "@ + f.affection@),
        has_part(emotion_line(f), "压力 "@ + f.stress@),
        has_part(emotion_line(f), "精力 "@ + f.energy@),
{
    reveal_strlit("当前情绪：开心 ");
    reveal_strlit("当前情绪：");
    reveal_strlit("开心 ");
    reveal_strlit("、生气 ");
    reveal_strlit("、");
    reveal_strlit("生气 ");
    reveal_strlit("、悲伤 ");
    reveal_strlit("悲伤 ");
    reveal_strlit("、害怕 ");
    reveal_strlit("害怕 ");
    reveal_strlit("、好感 ");
    reveal_strlit("好感 ");
    reveal_strlit("、压力 ");
    reveal_strlit("压力 ");
    reveal_strlit("、精力 ");
    reveal_strlit("精力 ");
    assert("当前情绪：开心 "@ =~= "当前情绪："@ + "开心 "@);
    assert("、生气 "@ =~= "、"@ + "生气 "@);
    assert("、悲伤 "@ =~= "、"@ + "悲伤 "@);
    assert("、害怕 "@ =~= "、"@ + "害怕 "@);
    assert("、好感 "@ =~= "、"@ + "好感 "@);
    assert("、压力 "@ =~= "、"@ + "压力 "@);
    assert("、精力 "@ =~= "、"@ + "精力 "@);
    let l0 = "当前情绪：开心 "@ + f.happiness@;
    lemma_put(Seq::empty(), "当前情绪："@, "开心 "@, f.happiness@);
    assert(Seq::<char>::empty() + "当前情绪：开心 "@ + f.happiness@ =~= l0);
    let l1 = l0 + "、生气 "@ + f.anger@;
    lemma_put(l0, "、"@, "生气 "@, f.anger@);
    let l2 = l1 + "、悲伤 "@ + f.sadness@;
    lemma_put(l1, "、"@, "悲伤 "@, f.sadness@);
    let l3 = l2 + "、害怕 "@ + f.fear@;
    lemma_put(l2, "、"@, "害怕 "@, f.fear@);
    let l4 = l3 + "、好感 "@ + f.affection@;
    lemma_put(l3, "、"@, "好感 "@, f.affection@);
    let l5 = l4 + "、压力 "@ + f.stress@;
    lemma_put(l4, "、"@, "压力 "@, f.stress@);
    let l6 = l5 + "、精力 "@ + f.energy@;
    lemma_put(l5, "、"@, "精力 "@, f.energy@);
}

/// Of a character of which nothing else is known the prompt says the name alone, and
/// each thing that becomes known is a paragraph of its own: a memory comes last but
/// for the closing instructions.
pub proof fn prompts_say_no_more_than_is_known(
    ctx: ConversationContext,
    more: ConversationContext,
    r: String,
    s: String,
)
    requires
        call_ensures(
            render_system_prompt,
            (&ctx, &None::<RelationshipFigures>, &None::<EmotionFigures>),
            r,
        ),
        call_ensures(
            render_system_prompt,
            (&more, &None::<RelationshipFigures>, &None::<EmotionFigures>),
            s,
        ),
        ctx.character.definition.description is None,
        ctx.character.definition.personality is None,
        ctx.character.definition.style is None,
        ctx.scenario is None,
        ctx.matching_lorebook@.len() == 0,
        ctx.memory@.len() == 0,
        ctx.post_history_instructions is None,
        more.character == ctx.character,
        more.scenario is None,
        more.matching_lorebook@.len() == 0,
        more.memory@.len() == 1,
        more.post_history_instructions is Some,
    ensures
        r@ == "你是"@ + ctx.character.definition.name@ + "。"@,
        s@ == r@ + "\n\n"@ + "相关记忆：\n"@ + "- "@ + more.memory@[0].content@ + "\n\n"@
            + more.post_history_instructions->0@,
{
    let opening = "你是"@ + ctx.character.definition.name@ + "。"@;
    let end = more.post_history_instructions->0@;
    assert(lore_texts(ctx.matching_lorebook@).len() == 0);
    assert(lore_texts(more.matching_lorebook@).len() == 0);
    assert(memory_texts(ctx.memory@).len() == 0);
    let item = "- "@ + more.memory@[0].content@;
    assert(memory_texts(more.memory@) =~= seq![item]);
    let memory = "相关记忆：\n"@ + item;
    assert(joined(seq![item], "\n"@) == item);
    assert(Seq::<char>::empty() + end =~= end);
    assert(prompt_parts(ctx, None, None) =~= seq![opening]);
    assert(prompt_parts(more, None, None) =~= seq![opening, memory, end]);
    let three = seq![opening, memory, end];
    assert(three.drop_last() =~= seq![opening, memory]);
    assert(seq![opening, memory].drop_last() =~= seq![opening]);
    assert(joined(seq![opening], "\n\n"@) == opening);
    assert(joined(seq![opening, memory], "\n\n"@) == opening + "\n\n"@ + memory);
    assert(s@ =~= r@ + "\n\n"@ + "相关记忆：\n"@ + "- "@ + more.memory@[0].content@ + "\n\n"@ + end);
}

/// Memories and lorebook entries stand in the prompt in their order, a line each.
pub proof fn prompts_keep_the_order(
    ctx: ConversationContext,
    relationship: Option<RelationshipFigures>,
    emotion: Option<EmotionFigures>,
    r: String,
    m: int,
    e: int,
)
    requires
        call_ensures(render_system_prompt, (&ctx, &relationship, &emotion), r),
    ensures
        0 <= m && m + 1 < ctx.memory@.len() ==> has_part(
            r@,
            "- "@ + ctx.memory@[m].content@ + "\n"@ + ("- "@ + ctx.memory@[m + 1].content@),
        ),
        0 <= e && e + 1 < ctx.matching_lorebook@.len() ==> has_part(
            r@,
            ctx.matching_lorebook@[e].content@ + "\n"@ + ctx.matching_lorebook@[e + 1].content@,
        ),
{
    if 0 <= m && m + 1 < ctx.memory@.len() {
        let lines = memory_texts(ctx.memory@);
        let paragraph = "相关记忆：\n"@ + joined(lines, "\n"@);
        assert(headed("相关记忆：\n"@, lines)[0] == paragraph);
        lemma_paragraph(ctx, relationship, emotion, paragraph);
        lemma_neighbours("相关记忆：\n"@, lines, r@, m);
        assert(lines[m] == "- "@ + ctx.memory@[m].content@);
        assert(lines[m + 1] == "- "@ + ctx.memory@[m + 1].content@);
    }
    if 0 <= e && e + 1 < ctx.matching_lorebook@.len() {
        let lines = lore_texts(ctx.matching_lorebook@);
        let paragraph = "相关设定：\n"@ + joined(lines, "\n"@);
        assert(headed("相关设定：\n"@, lines)[0] == paragraph);
        lemma_paragraph(ctx, relationship, emotion, paragraph);
        lemma_neighbours("相关设定：\n"@, lines, r@, e);
        assert(lines[e] == ctx.matching_lorebook@[e].content@);
        assert(lines[e + 1] == ctx.matching_lorebook@[e + 1].content@);
    }
}

proof fn lemma_neighbours(heading: Seq<char>, lines: Seq<Seq<char>>, prompt: Seq<char>, k: int)
    requires
        0 <= k,
        k + 1 < lines.len(),
        has_part(prompt, heading + joined(lines, "\n"@)),
    ensures
        has_part(prompt, lines[k] + "\n"@ + lines[k + 1]),
{
    let list = joined(lines, "\n"@);
    let both = lines[k] + "\n"@ + lines[k + 1];
    crate::text::joining_keeps_neighbours(lines, "\n"@, k);
    longer_texts_keep_parts(heading, list, Seq::empty(), both);
    assert(heading + list + Seq::empty() =~= heading + list);
    crate::text::a_part_of_a_part(prompt, heading + list, both);
}

/// An answer is asked for with the system prompt and the message, at a temperature of
/// 0.8, for the character in the conversation and the participant; at once where the
/// character was mentioned, and in turn where it was not.
pub proof fn answers_are_asked_for(
    character_id: i64,
    conversation_id: i64,
    participant_id: i64,
    system: String,
    message: &str,
    mentioned: bool,
    r: LlmRequest,
)
    requires
        call_ensures(
            reply_request,
            (character_id, conversation_id, participant_id, system, message, mentioned),
            r,
        ),
    ensures
        r.system == Some(system),
        r.messages@.len() == 1 && r.messages@[0].role == LlmRole::User
            && r.messages@[0].content@ == message@,
        r.temperature is Some && r.temperature->0.bits == 0x3FE9_9999_9999_999A,
        r.model is None && r.max_tokens is None,
        mentioned ==> r.priority == 0,
        !mentioned ==> r.priority == 1,
        r.origin matches Some(o) && o.character_id == character_id && o.conversation_id
            == conversation_id && o.participant_id == Some(participant_id),
{
}

/// With everything known the prompt has its paragraphs in this order: the name, the
/// description, the personality, the style, the scenario, the lorebook, the
/// relationship, the emotion, the memories and the closing instructions.
pub proof fn the_whole_prompt(
    ctx: ConversationContext,
    f: RelationshipFigures,
    g: EmotionFigures,
    r: String,
)
    requires
        call_ensures(render_system_prompt, (&ctx, &Some(f), &Some(g)), r),
        ctx.character.definition.description is Some,
        ctx.character.definition.personality is Some,
        ctx.character.definition.style is Some,
        ctx.scenario is Some,
        ctx.matching_lorebook@.len() == 1,
        ctx.memory@.len() == 1,
        ctx.post_history_instructions is Some,
    ensures
        ({
            let def = ctx.character.definition;
            r@ == joined(
                seq![
                    "你是"@ + def.name@ + "。"@,
                    def.description->0@,
                    "性格："@ + def.personality->0@,
                    "说话风格："@ + def.style->0@,
                    "当前场景："@ + ctx.scenario->0@,
                    "相关设定：\n"@ + ctx.matching_lorebook@[0].content@,
                    "关系：熟悉度 "@ + f.familiarity@ + "、好感 "@ + f.affection@ + "、信任 "@ + f.trust@
                        + "、厌烦 "@ + f.annoyance@ + "、亲密 "@ + f.intimacy@,
                    "当前情绪：开心 "@ + g.happiness@ + "、生气 "@ + g.anger@ + "、悲伤 "@ + g.sadness@
                        + "、害怕 "@ + g.fear@ + "、好感 "@ + g.affection@ + "、压力 "@ + g.stress@
                        + "、精力 "@ + g.energy@,
                    "相关记忆：\n"@ + ("- "@ + ctx.memory@[0].content@),
                    ctx.post_history_instructions->0@,
                ],
                "\n\n"@,
            )
        }),
{
    let def = ctx.character.definition;
    let none = Seq::<char>::empty();
    let lore = lore_texts(ctx.matching_lorebook@);
    let memories = memory_texts(ctx.memory@);
    assert(lore =~= seq![ctx.matching_lorebook@[0].content@]);
    assert(memories =~= seq!["- "@ + ctx.memory@[0].content@]);
    assert(none + def.description->0@ =~= def.description->0@);
    assert(none + ctx.post_history_instructions->0@ =~= ctx.post_history_instructions->0@);
    assert(prompt_parts(ctx, Some(f), Some(g)) =~= seq![
        "你是"@ + def.name@ + "。"@,
        def.description->0@,
        "性格："@ + def.personality->0@,
        "说话风格："@ + def.style->0@,
        "当前场景："@ + ctx.scenario->0@,
        "相关设定：\n"@ + ctx.matching_lorebook@[0].content@,
        relationship_line(f),
        emotion_line(g),
        "相关记忆：\n"@ + ("- "@ + ctx.memory@[0].content@),
        ctx.post_history_instructions->0@,
    ]);
}

} // verus!

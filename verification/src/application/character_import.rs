//! Importing character cards: from the bytes of a card to a character, its state
//! and, if wanted, its place in a conversation.

use vstd::prelude::*;

use crate::application::binding::{
    bind, binding_free, binding_refused, BindReads, BindingTerms,
};
use crate::domain::character::{
    Character, CharacterBinding, CharacterDefinition, CharacterState, CharacterStateView, ReplyMode,
};
use crate::domain::conversation::ConversationType;
use crate::error::{DomainError, RuntimeError};
use crate::json::{Json, JsonView};
use crate::text::{concat, owned};
use crate::time::Timestamp;
use vstd::utf8::{encode_utf8, valid_utf8};

verus! {

/// Where an imported character is put.
#[derive(Debug)]
pub struct BindOptions {
    pub conversation_type: ConversationType,
    /// The name of the conversation on the platform.
    pub external_conversation_id: String,
    /// The name on the platform of a participant to be created with it.
    pub participant_external_id: Option<String>,
    /// What that participant is called.
    pub participant_display_name: Option<String>,
    pub reply_mode: ReplyMode,
    pub proactive_enabled: bool,
}

impl Default for BindOptions {
    fn default() -> (r: BindOptions)
        ensures
            r.conversation_type == ConversationType::Private,
            r.external_conversation_id@ == ""@,
            r.participant_external_id is None,
            r.participant_display_name is None,
            r.reply_mode == ReplyMode::MentionOnly,
            !r.proactive_enabled,
    {
        BindOptions {
            conversation_type: ConversationType::default(),
            external_conversation_id: owned(""),
            participant_external_id: None,
            participant_display_name: None,
            reply_mode: ReplyMode::default(),
            proactive_enabled: false,
        }
    }
}

/// What is wanted of an import.
#[derive(Debug)]
pub struct ImportOptions {
    /// Where the character is put, if anywhere.
    pub bind: Option<BindOptions>,
}

impl Default for ImportOptions {
    fn default() -> (r: ImportOptions)
        ensures
            r.bind is None,
    {
        ImportOptions { bind: None }
    }
}

/// What an import came to.
#[derive(Debug)]
pub struct ImportResult {
    pub character_id: i64,
    pub name: String,
    /// The version that the card gives, if it gives one.
    pub spec_version: Option<String>,
    pub conversation_id: Option<i64>,
    pub binding_id: Option<i64>,
    pub participant_id: Option<i64>,
}

/// How a card is written.
#[derive(Debug, Clone, Copy, PartialEq, Eq, Structural)]
pub enum CardFormat {
    Png,
    Json,
}

/// The bytes that a PNG file begins with.
pub open spec fn png_signature() -> Seq<u8> {
    seq![137u8, 80u8, 78u8, 71u8, 13u8, 10u8, 26u8, 10u8]
}

/// How the bytes of a card are written.
pub open spec fn format_of(bytes: Seq<u8>) -> CardFormat {
    if bytes.len() >= 8 && bytes.take(8) == png_signature() {
        CardFormat::Png
    } else {
        CardFormat::Json
    }
}

/// Tells how the bytes of a card are written: what begins like a PNG file is one.
pub fn card_format(bytes: &[u8]) -> (r: CardFormat)
    ensures
        r == format_of(bytes@),
{
    if bytes.len() < 8 {
        return CardFormat::Json;
    }
    let png = bytes[0] == 137 && bytes[1] == 80 && bytes[2] == 78 && bytes[3] == 71 && bytes[4] == 13
        && bytes[5] == 10 && bytes[6] == 26 && bytes[7] == 10;
    proof {
        let head = bytes@.take(8);
        if png {
            assert(head =~= png_signature());
        } else if head == png_signature() {
            assert(head[0] == 137 && head[1] == 80 && head[2] == 78 && head[3] == 71 && head[4]
                == 13 && head[5] == 10 && head[6] == 26 && head[7] == 10);
        }
    }
    if png {
        CardFormat::Png
    } else {
        CardFormat::Json
    }
}

/// What `std::str::from_utf8` says of bytes that are no text.
pub uninterp spec fn utf8_complaint(bytes: Seq<u8>) -> Seq<char>;

/// `std::str::from_utf8`. Claimed: it gives the text whose bytes these are,
/// exactly where the bytes are valid UTF-8; else an error whose text is a function
/// of the bytes.
#[verifier::external_body]
fn read_utf8(bytes: &[u8]) -> (r: Result<String, String>)
    ensures
        match r {
            Ok(s) => valid_utf8(bytes@) && encode_utf8(s@) == bytes@,
            Err(e) => !valid_utf8(bytes@) && e@ == utf8_complaint(bytes@),
        },
{
    std::str::from_utf8(bytes).map(|s| s.to_string()).map_err(|e| e.to_string())
}

/// The text of a card that is no PNG file.
pub fn card_text(bytes: &[u8]) -> (r: Result<String, RuntimeError>)
    ensures
        match r {
            Ok(s) => valid_utf8(bytes@) && encode_utf8(s@) == bytes@,
            Err(e) => !valid_utf8(bytes@) && (e matches RuntimeError::Config(s) && s@
                == "卡片不是合法 UTF-8 文本："@ + utf8_complaint(bytes@)),
        },
{
    match read_utf8(bytes) {
        Ok(s) => Ok(s),
        Err(e) => Err(RuntimeError::Config(concat("卡片不是合法 UTF-8 文本：", e.as_str()))),
    }
}

/// The error for a card whose file cannot be read.
pub fn unreadable_card(path: &str, reason: &str) -> (r: RuntimeError)
    ensures
        r matches RuntimeError::Config(s) && s@ == "无法读取角色卡文件 "@ + path@ + ": "@ + reason@,
{
    let head = concat("无法读取角色卡文件 ", path);
    let head = concat(head.as_str(), ": ");
    RuntimeError::Config(concat(head.as_str(), reason))
}

/// The error for a card that cannot be parsed.
pub fn card_failure(reason: String) -> (r: RuntimeError)
    ensures
        r == RuntimeError::CardImport(reason),
{
    RuntimeError::CardImport(reason)
}

/// What an import waits for.
#[derive(Debug, Clone, Copy, PartialEq, Eq, Structural)]
pub enum ImportStage {
    /// The number of the stored character.
    Insert,
    /// That the state of the character is stored.
    StoreState,
    /// The number of the conversation.
    Conversation,
    /// The number of the participant.
    Participant,
    /// The number of the binding.
    Bind,
    /// Nothing.
    Finished,
}

/// An import under way.
#[derive(Debug)]
pub struct CardImport {
    /// The character to be stored.
    pub character: Character,
    pub options: ImportOptions,
    pub stage: ImportStage,
    pub result: ImportResult,
}

/// The version that the metadata of a card give.
pub open spec fn version_of(metadata: JsonView) -> Option<Seq<char>> {
    metadata.string_at("spec_version"@)
}

impl CardImport {
    /// The stage after the state is stored.
    pub open spec fn placed(options: ImportOptions) -> ImportStage {
        match options.bind {
            Some(_) => ImportStage::Conversation,
            None => ImportStage::Finished,
        }
    }

    /// Where a conversation, a participant or a binding is asked for, one is wanted.
    pub open spec fn wf(self) -> bool {
        match self.stage {
            ImportStage::Conversation => self.options.bind is Some,
            ImportStage::Participant => self.options.bind is Some
                && self.options.bind->0.participant_external_id is Some
                && self.result.conversation_id is Some,
            ImportStage::Bind => self.options.bind is Some && self.result.conversation_id is Some,
            _ => true,
        }
    }

    /// Another stage with another result.
    pub open spec fn at(self, stage: ImportStage, result: ImportResult) -> CardImport {
        CardImport { stage, result, ..self }
    }

    /// The import after a number came.
    pub open spec fn after(self, id: i64) -> CardImport {
        match self.stage {
            ImportStage::Insert => self.at(
                ImportStage::StoreState,
                ImportResult { character_id: id, ..self.result },
            ),
            ImportStage::StoreState => self.at(CardImport::placed(self.options), self.result),
            ImportStage::Conversation => self.at(
                if self.options.bind->0.participant_external_id is Some {
                    ImportStage::Participant
                } else {
                    ImportStage::Bind
                },
                ImportResult { conversation_id: Some(id), ..self.result },
            ),
            ImportStage::Participant => self.at(
                ImportStage::Bind,
                ImportResult { participant_id: Some(id), ..self.result },
            ),
            ImportStage::Bind => self.at(
                ImportStage::Finished,
                ImportResult { binding_id: Some(id), ..self.result },
            ),
            ImportStage::Finished => self,
        }
    }

    /// What becomes of the import after an answer.
    pub open spec fn goes_on_to(
        self,
        answer: Result<i64, RuntimeError>,
        r: Result<CardImport, RuntimeError>,
    ) -> bool {
        match answer {
            Err(e) => r == Err::<CardImport, RuntimeError>(e),
            Ok(id) => r == Ok::<CardImport, RuntimeError>(self.after(id)),
        }
    }

    /// Begins an import with what came of parsing the card. A definition that is
    /// not valid ends it.
    pub fn import_card(
        parsed: Result<CharacterDefinition, RuntimeError>,
        options: ImportOptions,
        now: Timestamp,
    ) -> (r: Result<CardImport, RuntimeError>)
        ensures
            match parsed {
                Err(e) => r == Err::<CardImport, RuntimeError>(e),
                Ok(definition) => if !definition.valid() {
                    r matches Err(RuntimeError::Domain(DomainError::InvalidDefinition(s))) && s@
                        == "角色名称不能为空"@
                } else {
                    r matches Ok(run) && ({
                        &&& run.wf()
                        &&& run.stage == ImportStage::Insert
                        &&& run.options == options
                        &&& run.character.id == 0
                        &&& run.character.definition == definition
                        &&& run.character.state@ == CharacterStateView::fresh(now)
                        &&& run.character.created_at == now
                        &&& run.character.updated_at == now
                        &&& run.result.name@ == definition.name@
                        &&& match (run.result.spec_version, version_of(definition.metadata.model())) {
                            (Some(a), Some(b)) => a@ == b,
                            (None, None) => true,
                            _ => false,
                        }
                        &&& run.result.conversation_id is None
                        &&& run.result.binding_id is None
                        &&& run.result.participant_id is None
                    })
                },
            },
    {
        let definition = match parsed {
            Err(e) => {
                return Err(e);
            },
            Ok(d) => d,
        };
        match definition.validate() {
            Err(e) => {
                return Err(RuntimeError::Domain(e));
            },
            Ok(_) => {},
        }
        let name = definition.name.clone();
        let spec_version = match definition.metadata.text_at("spec_version") {
            Some(s) => Some(s.clone()),
            None => None,
        };
        Ok(
            CardImport {
                character: Character {
                    id: 0,
                    definition,
                    state: CharacterState::default_at(now),
                    created_at: now,
                    updated_at: now,
                },
                options,
                stage: ImportStage::Insert,
                result: ImportResult {
                    character_id: 0,
                    name,
                    spec_version,
                    conversation_id: None,
                    binding_id: None,
                    participant_id: None,
                },
            },
        )
    }

    /// The binding that is asked for, not stored yet, or why there can be none.
    pub fn bind(&self, reads: BindReads, now: Timestamp) -> (r: Result<
        CharacterBinding,
        RuntimeError,
    >)
        requires
            self.wf(),
            self.stage == ImportStage::Bind,
        ensures
            r is Ok <==> binding_free(self.result.conversation_id->0, reads),
            match r {
                Err(e) => binding_refused(
                    self.result.character_id,
                    self.result.conversation_id->0,
                    reads,
                    e,
                ),
                Ok(made) => {
                    &&& made.id == 0
                    &&& made.character_id == self.result.character_id
                    &&& made.conversation_id == self.result.conversation_id->0
                    &&& made.reply_mode == self.options.bind->0.reply_mode
                    &&& made.proactive_enabled == self.options.bind->0.proactive_enabled
                    &&& made.mute_schedule is None
                    &&& made.behavior_overrides.model() == JsonView::Object(Seq::empty())
                    &&& made.context_policy.model() == JsonView::Object(Seq::empty())
                    &&& made.switched_at is None
                    &&& !made.cross_reply_enabled
                    &&& made.created_at == now
                },
            },
    {
        let terms = self.options.bind.as_ref().unwrap().terms();
        let conversation_id: i64 = self.result.conversation_id.unwrap();
        bind(self.result.character_id, conversation_id, terms, reads, now)
    }

    /// Goes on with the number that was asked for (any number where only that
    /// something is stored was asked for); a failure ends the import.
    pub fn advance(self, answer: Result<i64, RuntimeError>) -> (r: Result<CardImport, RuntimeError>)
        requires
            self.wf(),
        ensures
            self.goes_on_to(answer, r),
            r matches Ok(run) ==> run.wf(),
    {
        let id: i64 = match answer {
            Err(e) => {
                return Err(e);
            },
            Ok(id) => id,
        };
        let mut run = self;
        match run.stage {
            ImportStage::Insert => {
                run.result.character_id = id;
                run.stage = ImportStage::StoreState;
            },
            ImportStage::StoreState => {
                run.stage = match run.options.bind {
                    Some(_) => ImportStage::Conversation,
                    None => ImportStage::Finished,
                };
            },
            ImportStage::Conversation => {
                run.result.conversation_id = Some(id);
                run.stage = match &run.options.bind {
                    Some(bind) => match bind.participant_external_id {
                        Some(_) => ImportStage::Participant,
                        None => ImportStage::Bind,
                    },
                    None => ImportStage::Bind,
                };
            },
            ImportStage::Participant => {
                run.result.participant_id = Some(id);
                run.stage = ImportStage::Bind;
            },
            ImportStage::Bind => {
                run.result.binding_id = Some(id);
                run.stage = ImportStage::Finished;
            },
            ImportStage::Finished => {},
        }
        Ok(run)
    }
}

impl BindOptions {
    /// What the participant to be created is called: by its display name, else by
    /// its name on the platform.
    pub fn participant_name(&self) -> (r: Option<String>)
        ensures
            match self.participant_external_id {
                None => r is None,
                Some(external) => r matches Some(name) && name@ == match self.participant_display_name {
                    Some(display) => display@,
                    None => external@,
                },
            },
    {
        match &self.participant_external_id {
            None => None,
            Some(external) => match &self.participant_display_name {
                Some(display) => Some(display.clone()),
                None => Some(external.clone()),
            },
        }
    }

    /// How the character is to take part: without quiet hours and overrides.
    pub fn terms(&self) -> (r: BindingTerms)
        ensures
            r.reply_mode == self.reply_mode,
            r.proactive_enabled == self.proactive_enabled,
            r.mute_schedule is None,
            r.behavior_overrides.model() == JsonView::Object(Seq::empty()),
            r.context_policy.model() == JsonView::Object(Seq::empty()),
    {
        BindingTerms {
            reply_mode: self.reply_mode,
            proactive_enabled: self.proactive_enabled,
            mute_schedule: None,
            behavior_overrides: Json::empty_object(),
            context_policy: Json::empty_object(),
        }
    }
}

/// An import that is finished has gone through every step that was wanted and no
/// other: a conversation and a binding exactly where the character is put
/// somewhere, a participant exactly where one was wanted with it.
pub proof fn imports_do_what_is_wanted(run: CardImport, ids: Seq<i64>)
    requires
        run.stage == ImportStage::Insert,
        run.result.conversation_id is None,
        run.result.binding_id is None,
        run.result.participant_id is None,
        ids.len() == 5,
    ensures
        run.options.bind is None ==> ({
            let end = run.after(ids[0]).after(ids[1]);
            &&& end.stage == ImportStage::Finished
            &&& end.result == (ImportResult { character_id: ids[0], ..run.result })
        }),
        run.options.bind matches Some(bind) && bind.participant_external_id is None ==> ({
            let end = run.after(ids[0]).after(ids[1]).after(ids[2]).after(ids[3]);
            &&& end.stage == ImportStage::Finished
            &&& end.result == (ImportResult {
                character_id: ids[0],
                conversation_id: Some(ids[2]),
                binding_id: Some(ids[3]),
                ..run.result
            })
        }),
        run.options.bind matches Some(bind) && bind.participant_external_id is Some ==> ({
            let end = run.after(ids[0]).after(ids[1]).after(ids[2]).after(ids[3]).after(ids[4]);
            &&& end.stage == ImportStage::Finished
            &&& end.result == (ImportResult {
                character_id: ids[0],
                conversation_id: Some(ids[2]),
                participant_id: Some(ids[3]),
                binding_id: Some(ids[4]),
                ..run.result
            })
        }),
{
}

/// A second character is not imported into a conversation: where the conversation
/// holds one, no binding is made, and the import ends with that error.
pub proof fn a_second_import_is_refused(
    run: CardImport,
    reads: BindReads,
    made: Result<CharacterBinding, RuntimeError>,
    answer: Result<i64, RuntimeError>,
    r: Result<CardImport, RuntimeError>,
)
    requires
        run.wf(),
        run.stage == ImportStage::Bind,
        reads.in_conversation matches Ok(list) && list@.len() > 0,
        made is Ok <==> binding_free(run.result.conversation_id->0, reads),
        made matches Err(e) ==> answer == Err::<i64, RuntimeError>(e),
        run.goes_on_to(answer, r),
    ensures
        made is Err,
        r == Err::<CardImport, RuntimeError>(made->Err_0),
{
}

/// What begins with the eight bytes of a PNG file is one, and anything else is text.
pub proof fn cards_are_told_by_their_beginning(bytes: &[u8], r: CardFormat)
    requires
        call_ensures(card_format, (bytes,), r),
    ensures
        r == CardFormat::Png <==> bytes@.len() >= 8 && bytes@[0] == 0x89 && bytes@[1] == 0x50
            && bytes@[2] == 0x4E && bytes@[3] == 0x47 && bytes@[4] == 0x0D && bytes@[5] == 0x0A
            && bytes@[6] == 0x1A && bytes@[7] == 0x0A,
{
    if bytes@.len() >= 8 {
        let head = bytes@.take(8);
        if bytes@[0] == 0x89 && bytes@[1] == 0x50 && bytes@[2] == 0x4E && bytes@[3] == 0x47
            && bytes@[4] == 0x0D && bytes@[5] == 0x0A && bytes@[6] == 0x1A && bytes@[7] == 0x0A {
            assert(head =~= seq![137u8, 80u8, 78u8, 71u8, 13u8, 10u8, 26u8, 10u8]);
        }
        if head == seq![137u8, 80u8, 78u8, 71u8, 13u8, 10u8, 26u8, 10u8] {
            assert(head[0] == 137 && head[1] == 80 && head[2] == 78 && head[3] == 71 && head[4]
                == 13 && head[5] == 10 && head[6] == 26 && head[7] == 10);
        }
    }
}

/// A card is imported exactly where its character has a name that is not blank; the
/// character is the one of the card, new, in a fresh state.
pub proof fn cards_make_new_characters(
    definition: CharacterDefinition,
    options: ImportOptions,
    now: Timestamp,
    r: Result<CardImport, RuntimeError>,
    check: Result<(), DomainError>,
)
    requires
        call_ensures(
            CardImport::import_card,
            (Ok::<CharacterDefinition, RuntimeError>(definition), options, now),
            r,
        ),
        call_ensures(CharacterDefinition::validate, (&definition,), check),
    ensures
        r is Ok <==> check is Ok,
        r matches Ok(run) ==> {
            &&& run.stage == ImportStage::Insert
            &&& run.options == options
            &&& run.character.id == 0
            &&& run.character.definition == definition
            &&& run.character.created_at == now && run.character.updated_at == now
            &&& run.character.state@.energy.bits == 0x4052_0000_0000_0000
            &&& run.character.state@.stress.bits == 0x4024_0000_0000_0000
            &&& run.character.state@.last_updated == now
            &&& run.result.name@ == definition.name@
            &&& run.result.spec_version is Some <==> definition.metadata.model().string_at(
                "spec_version"@,
            ) is Some
            &&& run.result.spec_version matches Some(v) ==> definition.metadata.model().string_at(
                "spec_version"@,
            ) == Some(v@)
            &&& run.result.conversation_id is None && run.result.binding_id is None
                && run.result.participant_id is None
        },
{
}

/// An imported character takes part as was wanted: in the mode and with the
/// initiative of the options, without quiet hours.
pub proof fn imports_bind_as_wanted(
    run: CardImport,
    reads: BindReads,
    now: Timestamp,
    b: CharacterBinding,
)
    requires
        run.wf(),
        run.stage == ImportStage::Bind,
        call_ensures(
            CardImport::bind,
            (&run, reads, now),
            Ok::<CharacterBinding, RuntimeError>(b),
        ),
    ensures
        b.character_id == run.result.character_id,
        run.result.conversation_id == Some(b.conversation_id),
        run.options.bind matches Some(wanted) && b.reply_mode == wanted.reply_mode
            && b.proactive_enabled == wanted.proactive_enabled,
        b.mute_schedule is None,
        b.created_at == now,
{
}

/// A participant goes by the display name, and without one by its name on the
/// platform.
pub proof fn participants_go_by_a_name(options: BindOptions, r: Option<String>)
    requires
        call_ensures(BindOptions::participant_name, (&options,), r),
    ensures
        r is Some <==> options.participant_external_id is Some,
        r is Some && options.participant_display_name is Some ==> r->0@
            == options.participant_display_name->0@,
        r is Some && options.participant_display_name is None ==> r->0@
            == options.participant_external_id->0@,
{
}

/// A number that comes takes an import one step on, and a failure ends it with that
/// failure.
pub proof fn imports_go_step_by_step(
    run: CardImport,
    id: i64,
    r: Result<CardImport, RuntimeError>,
    e: RuntimeError,
    failed: Result<CardImport, RuntimeError>,
)
    requires
        run.wf(),
        call_ensures(CardImport::advance, (run, Ok::<i64, RuntimeError>(id)), r),
        call_ensures(CardImport::advance, (run, Err::<i64, RuntimeError>(e)), failed),
    ensures
        failed == Err::<CardImport, RuntimeError>(e),
        r matches Ok(next) && {
            &&& next.character == run.character && next.options == run.options
            &&& run.stage == ImportStage::Insert ==> next.stage == ImportStage::StoreState
                && next.result.character_id == id
            &&& run.stage == ImportStage::StoreState && run.options.bind is None ==> next.stage
                == ImportStage::Finished && next.result == run.result
            &&& run.stage == ImportStage::StoreState && run.options.bind is Some ==> next.stage
                == ImportStage::Conversation && next.result == run.result
            &&& run.stage == ImportStage::Conversation ==> next.result.conversation_id == Some(id)
                && (next.stage == ImportStage::Participant
                || next.stage == ImportStage::Bind) && (next.stage == ImportStage::Participant
                <==> run.options.bind->0.participant_external_id is Some)
            &&& run.stage == ImportStage::Participant ==> next.result.participant_id == Some(id)
                && next.stage == ImportStage::Bind
            &&& run.stage == ImportStage::Bind ==> next.result.binding_id == Some(id) && next.stage
                == ImportStage::Finished
        },
{
}

/// The text of a card is what its bytes spell, and bytes that spell nothing are
/// refused.
pub proof fn card_texts_are_their_bytes(bytes: &[u8], r: Result<String, RuntimeError>)
    requires
        call_ensures(card_text, (bytes,), r),
    ensures
        r is Ok <==> valid_utf8(bytes@),
        r matches Ok(s) ==> encode_utf8(s@) == bytes@,
{
}

} // verus!

//! System commands: recognising them, who may give them, and what they do.

use vstd::prelude::*;

use crate::domain::behavior::Action;
use crate::domain::character::Character;
use crate::domain::conversation::ConversationType;
use crate::domain::event::{Command, CommandReceivedEvent};
use crate::error::{RepositoryError, RuntimeError};
use crate::text::{
    begins_with, chars_of, concat, is_space, is_whitespace, owned, same_text, slice_text,
    starts_with, texts, trim, trimmed,
};

verus! {

/// The name that a message asks to switch to: it begins with the word for
/// switching, white space follows, and then a name that is not blank.
pub open spec fn switch_target(content: Seq<char>) -> Option<Seq<char>> {
    let t = trimmed(content);
    if begins_with(t, "换角色"@) && t.len() > "换角色"@.len() && is_space(t["换角色"@.len() as int])
        && trimmed(t.skip("换角色"@.len() as int)).len() > 0 {
        Some(trimmed(t.skip("换角色"@.len() as int)))
    } else {
        None
    }
}

/// The name that a message asks to switch to where it is a system command: in a
/// group the bot must be mentioned.
pub open spec fn command_target(
    content: Seq<char>,
    mentioned: bool,
    conversation_type: ConversationType,
) -> Option<Seq<char>> {
    if conversation_type == ConversationType::Group && !mentioned {
        None
    } else {
        switch_target(content)
    }
}

/// Recognises a system command. In a group the bot must be mentioned.
pub fn classify(content: &str, is_mentioned: bool, conversation_type: ConversationType) -> (r: Option<
    Command,
>)
    ensures
        match r {
            None => command_target(content@, is_mentioned, conversation_type) is None,
            Some(Command::SwitchCharacter { character_name }) => command_target(
                content@,
                is_mentioned,
                conversation_type,
            ) == Some(character_name@),
        },
{
    if conversation_type == ConversationType::Group && !is_mentioned {
        return None;
    }
    let t = trim(content);
    if !starts_with(t.as_str(), "换角色") {
        return None;
    }
    let word = chars_of("换角色");
    let v = chars_of(t.as_str());
    let n: usize = word.len();
    if v.len() <= n {
        return None;
    }
    if !is_whitespace(v[n]) {
        return None;
    }
    let rest = slice_text(&v, n, v.len());
    assert(rest@ =~= t@.skip(n as int));
    let name = trim(rest.as_str());
    if name.as_str().is_empty() {
        return None;
    }
    Some(Command::SwitchCharacter { character_name: name })
}

/// The sender is one of the administrators; without a list nobody is.
pub open spec fn admin(sender: Seq<char>, admin_users: Option<Seq<Seq<char>>>) -> bool {
    admin_users matches Some(list) && list.contains(sender)
}

/// The texts of an optional list of strings.
pub open spec fn optional_texts(list: Option<&[String]>) -> Option<Seq<Seq<char>>> {
    match list {
        Some(l) => Some(texts(l@)),
        None => None,
    }
}

/// Tells whether the sender may give system commands.
pub fn is_admin(sender_external_id: &str, admin_users: Option<&[String]>) -> (r: bool)
    ensures
        r == admin(sender_external_id@, optional_texts(admin_users)),
{
    match admin_users {
        None => false,
        Some(list) => {
            let mut i: usize = 0;
            while i < list.len()
                invariant
                    i <= list@.len(),
                    admin_users == Some(list),
                    forall|j: int| 0 <= j < i ==> (#[trigger] texts(list@)[j]) != sender_external_id@,
                decreases list@.len() - i,
            {
                if same_text(list[i].as_str(), sender_external_id) {
                    assert(texts(list@)[i as int] == sender_external_id@);
                    return true;
                }
                i += 1;
            }
            assert(!texts(list@).contains(sender_external_id@));
            false
        },
    }
}

/// What a command leads to.
#[derive(Debug)]
pub enum CommandStep {
    /// A message to the conversation.
    Reply(Action),
    /// Another character in the conversation; then [`after_switch`].
    Switch { conversation_id: i64, character_id: i64 },
}

/// The step is to send this text to the conversation.
pub open spec fn says(step: CommandStep, conversation: i64, text: Seq<char>) -> bool {
    step matches CommandStep::Reply(Action::SendMessage { conversation_id, content })
        && conversation_id == conversation && content@ == text
}

/// The first index at or after `from` of a character of that name; the length
/// where there is none.
pub open spec fn name_index(characters: Seq<Character>, name: Seq<char>, from: int) -> int
    decreases characters.len() - from,
{
    if from < 0 || from >= characters.len() {
        characters.len() as int
    } else if characters[from].definition.name@ == name {
        from
    } else {
        name_index(characters, name, from + 1)
    }
}

fn reply(conversation_id: i64, content: String) -> (r: CommandStep)
    ensures
        says(r, conversation_id, content@),
{
    CommandStep::Reply(Action::SendMessage { conversation_id, content })
}

/// What a command to switch leads to.
pub open spec fn handled(
    event: CommandReceivedEvent,
    admin_users: Option<Seq<Seq<char>>>,
    characters: Result<Vec<Character>, RepositoryError>,
    r: Result<CommandStep, RuntimeError>,
) -> bool {
    let name = event.command->character_name@;
    if !admin(event.external_sender_id@, admin_users) {
        r matches Ok(step) && says(step, event.conversation_id, "你没有权限执行该指令。"@)
    } else {
        match characters {
            Err(e) => r == Err::<CommandStep, RuntimeError>(RuntimeError::Repository(e)),
            Ok(list) => {
                let i = name_index(list@, name, 0);
                if i < list@.len() {
                    r == Ok::<CommandStep, RuntimeError>(
                        CommandStep::Switch {
                            conversation_id: event.conversation_id,
                            character_id: list@[i].id,
                        },
                    )
                } else {
                    r matches Ok(step) && says(
                        step,
                        event.conversation_id,
                        "未找到角色「"@ + name + "」，请先导入该角色。"@,
                    )
                }
            },
        }
    }
}

/// Handles a command: who is no administrator is told so, a character that does
/// not exist is named, and otherwise the switch is made. The characters are looked
/// at only for administrators.
pub fn handle(
    event: &CommandReceivedEvent,
    admin_users: Option<&[String]>,
    characters: Result<Vec<Character>, RepositoryError>,
) -> (r: Result<CommandStep, RuntimeError>)
    ensures
        handled(*event, optional_texts(admin_users), characters, r),
{
    if !is_admin(event.external_sender_id.as_str(), admin_users) {
        return Ok(reply(event.conversation_id, owned("你没有权限执行该指令。")));
    }
    let list = match characters {
        Err(e) => {
            return Err(RuntimeError::Repository(e));
        },
        Ok(list) => list,
    };
    match &event.command {
        Command::SwitchCharacter { character_name } => {
            let mut i: usize = 0;
            while i < list.len() && !same_text(
                list[i].definition.name.as_str(),
                character_name.as_str(),
            )
                invariant
                    i <= list@.len(),
                    name_index(list@, character_name@, i as int) == name_index(
                        list@,
                        character_name@,
                        0,
                    ),
                decreases list@.len() - i,
            {
                i += 1;
            }
            if i < list.len() {
                return Ok(
                    CommandStep::Switch {
                        conversation_id: event.conversation_id,
                        character_id: list[i].id,
                    },
                );
            }
            let head = concat("未找到角色「", character_name.as_str());
            Ok(reply(event.conversation_id, concat(head.as_str(), "」，请先导入该角色。")))
        },
    }
}

/// Reports how a switch went.
pub fn after_switch(event: &CommandReceivedEvent, outcome: Result<(), RuntimeError>) -> (r:
    CommandStep)
    ensures
        match outcome {
            Ok(_) => says(
                r,
                event.conversation_id,
                "已把本会话角色切换为「"@ + event.command->character_name@ + "」。"@,
            ),
            Err(e) => says(r, event.conversation_id, "换角色失败："@ + e.text()),
        },
{
    match outcome {
        Ok(_) => match &event.command {
            Command::SwitchCharacter { character_name } => {
                let head = concat("已把本会话角色切换为「", character_name.as_str());
                reply(event.conversation_id, concat(head.as_str(), "」。"))
            },
        },
        Err(e) => reply(event.conversation_id, concat("换角色失败：", e.message().as_str())),
    }
}

/// Nobody but an administrator ever switches a character, and without a list of
/// administrators nobody does.
pub proof fn only_administrators_switch(
    event: CommandReceivedEvent,
    admin_users: Option<Seq<Seq<char>>>,
    characters: Result<Vec<Character>, RepositoryError>,
    r: Result<CommandStep, RuntimeError>,
)
    requires
        handled(event, admin_users, characters, r),
    ensures
        (r matches Ok(CommandStep::Switch { .. })) ==> admin(event.external_sender_id@, admin_users),
        admin_users is None ==> !(r matches Ok(CommandStep::Switch { .. })),
{
}

/// In a private conversation, and in a group where the bot is mentioned, the word
/// for switching, white space and a name are the command to switch to that name,
/// whatever white space stands around them.
pub proof fn a_switch_names_its_character(
    content: &str,
    mentioned: bool,
    conversation_type: ConversationType,
    r: Option<Command>,
    before: Seq<char>,
    gap: Seq<char>,
    name: Seq<char>,
    after: Seq<char>,
)
    requires
        call_ensures(classify, (content, mentioned, conversation_type), r),
        content@ == before + seq!['换', '角', '色'] + gap + name + after,
        forall|i: int| 0 <= i < before.len() ==> is_space(#[trigger] before[i]),
        forall|i: int| 0 <= i < gap.len() ==> is_space(#[trigger] gap[i]),
        forall|i: int| 0 <= i < after.len() ==> is_space(#[trigger] after[i]),
        gap.len() > 0,
        name.len() > 0 && !is_space(name[0]) && !is_space(name.last()),
    ensures
        conversation_type == ConversationType::Private || mentioned ==> (r matches Some(
            Command::SwitchCharacter { character_name },
        ) && character_name@ == name),
        conversation_type == ConversationType::Group && !mentioned ==> r is None,
{
    reveal_strlit("换角色");
    let word = seq!['换', '角', '色'];
    assert("换角色"@ =~= word);
    let core = word + gap + name;
    assert(content@ =~= before + core + after);
    assert(core[0] == '换' && core.last() == name.last());
    crate::text::trimming_finds_the_core(before, core, after);
    assert(core.subrange(0, 3) =~= word);
    assert(core.skip(3) =~= gap + name + Seq::empty());
    assert(core[3] == gap[0]);
    crate::text::trimming_finds_the_core(gap, name, Seq::empty());
}

/// A message that does not begin with the word for switching and white space, or
/// that says nothing after it, is no command; nor is anything in a group where the
/// bot is not mentioned.
pub proof fn other_messages_are_no_commands(
    content: &str,
    mentioned: bool,
    conversation_type: ConversationType,
    r: Option<Command>,
)
    requires
        call_ensures(classify, (content, mentioned, conversation_type), r),
    ensures
        r is Some ==> (conversation_type == ConversationType::Private || mentioned),
        r is Some ==> {
            let t = trimmed(content@);
            &&& t.len() > 4 && t[0] == '换' && t[1] == '角' && t[2] == '色' && is_space(t[3])
        },
{
    reveal_strlit("换角色");
    let t = trimmed(content@);
    if r is Some {
        assert(t.subrange(0, 3) == "换角色"@);
        assert(t[0] == t.subrange(0, 3)[0] && t[1] == t.subrange(0, 3)[1] && t[2] == t.subrange(
            0,
            3,
        )[2]);
        if t.len() == 4 {
            assert(t.skip(3) =~= seq![t[3]] + Seq::empty() + Seq::empty());
            crate::text::trimming_finds_the_core(seq![t[3]], Seq::empty(), Seq::empty());
        }
    }
}

/// An administrator's switch goes to the first character of exactly that name, in
/// the conversation in which it was asked for; without such a character the answer
/// says so, and others are told that they may not.
pub proof fn a_switch_goes_to_the_first_of_the_name(
    event: CommandReceivedEvent,
    admin_users: Option<&[String]>,
    list: Vec<Character>,
    r: Result<CommandStep, RuntimeError>,
    i: int,
)
    requires
        call_ensures(
            handle,
            (&event, admin_users, Ok::<Vec<Character>, RepositoryError>(list)),
            r,
        ),
    ensures
        ({
            let permitted = admin_users is Some && exists|a: int|
                0 <= a < admin_users->0@.len() && (#[trigger] admin_users->0@[a])@
                    == event.external_sender_id@;
            let name = event.command->character_name@;
            &&& permitted && 0 <= i < list@.len() && list@[i].definition.name@ == name && (
            forall|j: int| 0 <= j < i ==> (#[trigger] list@[j]).definition.name@ != name) ==> r
                == Ok::<CommandStep, RuntimeError>(
                CommandStep::Switch {
                    conversation_id: event.conversation_id,
                    character_id: list@[i].id,
                },
            )
            &&& permitted && (forall|j: int|
                0 <= j < list@.len() ==> (#[trigger] list@[j]).definition.name@ != name) ==> (
            r matches Ok(CommandStep::Reply(Action::SendMessage { conversation_id, content }))
                && conversation_id == event.conversation_id && crate::text::has_part(
                content@,
                name,
            ))
            &&& !permitted ==> (r matches Ok(
                CommandStep::Reply(Action::SendMessage { conversation_id, content }),
            ) && conversation_id == event.conversation_id && content@ == "你没有权限执行该指令。"@)
        }),
{
    let name = event.command->character_name@;
    lemma_name_index(list@, name, 0);
    if admin_users is Some {
        let users = admin_users->0@;
        if exists|a: int|
            0 <= a < users.len() && (#[trigger] users[a])@ == event.external_sender_id@ {
            let a = choose|a: int|
                0 <= a < users.len() && (#[trigger] users[a])@ == event.external_sender_id@;
            assert(texts(users)[a] == event.external_sender_id@);
        }
        if texts(users).contains(event.external_sender_id@) {
            let a = texts(users).index_of(event.external_sender_id@);
            assert(users[a]@ == event.external_sender_id@);
        }
    }
    crate::text::the_middle_is_a_part("未找到角色「"@, name, "」，请先导入该角色。"@);
    if 0 <= i < list@.len() && list@[i].definition.name@ == name && (forall|j: int|
        0 <= j < i ==> (#[trigger] list@[j]).definition.name@ != name) {
        assert(name_index(list@, name, 0) == i);
    }
}

proof fn lemma_name_index(characters: Seq<Character>, name: Seq<char>, from: int)
    requires
        0 <= from <= characters.len(),
    ensures
        from <= name_index(characters, name, from) <= characters.len(),
        forall|j: int|
            from <= j < name_index(characters, name, from) ==> (
            #[trigger] characters[j]).definition.name@ != name,
        name_index(characters, name, from) < characters.len() ==> characters[name_index(
            characters,
            name,
            from,
        )].definition.name@ == name,
    decreases characters.len() - from,
{
    if from < characters.len() && characters[from].definition.name@ != name {
        lemma_name_index(characters, name, from + 1);
    }
}

/// What is said after a switch goes to the conversation of the command, and names
/// the character, or why it failed.
pub proof fn switches_are_reported(
    event: CommandReceivedEvent,
    outcome: Result<(), RuntimeError>,
    r: CommandStep,
)
    requires
        call_ensures(after_switch, (&event, outcome), r),
    ensures
        r matches CommandStep::Reply(Action::SendMessage { conversation_id, content }) && {
            &&& conversation_id == event.conversation_id
            &&& outcome is Ok ==> crate::text::has_part(content@, event.command->character_name@)
            &&& outcome is Ok ==> begins_with(content@, "已把本会话角色切换为"@)
            &&& outcome matches Err(e) ==> crate::text::has_part(content@, e.text())
                && begins_with(content@, "换角色失败"@)
        },
{
    reveal_strlit("已把本会话角色切换为");
    reveal_strlit("已把本会话角色切换为「");
    reveal_strlit("换角色失败");
    reveal_strlit("换角色失败：");
    let name = event.command->character_name@;
    crate::text::the_middle_is_a_part("已把本会话角色切换为「"@, name, "」。"@);
    if let CommandStep::Reply(Action::SendMessage { conversation_id, content }) = r {
        match outcome {
            Ok(_) => {
                assert(content@.subrange(0, 10) =~= "已把本会话角色切换为"@);
            },
            Err(e) => {
                crate::text::the_middle_is_a_part("换角色失败："@, e.text(), Seq::empty());
                assert("换角色失败："@ + e.text() + Seq::empty() =~= content@);
                assert(content@.subrange(0, 5) =~= "换角色失败"@);
            },
        }
    }
}

/// A failure to read the characters is handed on to an administrator, and hidden from
/// everybody else.
pub proof fn only_administrators_see_failures(
    event: CommandReceivedEvent,
    admin_users: Option<&[String]>,
    e: RepositoryError,
    r: Result<CommandStep, RuntimeError>,
    permitted: bool,
    sender: &str,
)
    requires
        call_ensures(handle, (&event, admin_users, Err::<Vec<Character>, RepositoryError>(e)), r),
        sender@ == event.external_sender_id@,
        call_ensures(is_admin, (sender, admin_users), permitted),
    ensures
        permitted ==> r == Err::<CommandStep, RuntimeError>(RuntimeError::Repository(e)),
        !permitted ==> r is Ok,
{
}

} // verus!

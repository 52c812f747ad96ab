//! Assembling the prompt that goes to the completion service.

use crate::db::models::{messages_view, StoredMessage, StoredMessageView};
use crate::table::same_text;
use vstd::prelude::*;

verus! {

/// How many stored messages go into a prompt as context.
pub const CONTEXT_LIMIT: usize = 5;

/// How many stored messages are fetched for a prompt: the context and the
/// message that was just written, which is among the newest and is left out.
pub const FETCH_LIMIT: i64 = 6;

/// The speaker that a stored message is attributed to in a prompt: the
/// assistant where `system` sent it, the identity under which the completion
/// service's answers are stored, and the human otherwise.
pub open spec fn role(user_id: Seq<char>, system: Seq<char>) -> Seq<char> {
    if user_id == system {
        "Assistant"@
    } else {
        "Human"@
    }
}

/// The line that renders one stored message.
pub open spec fn line(m: StoredMessageView, system: Seq<char>) -> Seq<char> {
    role(m.user_id, system) + ": "@ + m.content + "\n"@
}

/// The lines of `context`, which comes newest first, from the oldest message
/// to the newest.
pub open spec fn history(context: Seq<StoredMessageView>, system: Seq<char>) -> Seq<char>
    decreases context.len(),
{
    if context.len() == 0 {
        Seq::empty()
    } else {
        line(context.last(), system) + history(context.drop_last(), system)
    }
}

/// The prompt for a message with text `content` after the earlier messages
/// `context`, which come newest first.
pub open spec fn prompt_text(
    content: Seq<char>,
    context: Seq<StoredMessageView>,
    system: Seq<char>,
) -> Seq<char> {
    let head = if context.len() > 0 {
        "Previous conversation:\n"@ + history(context, system) + "\n"@
    } else {
        Seq::empty()
    };
    head + "Human: "@ + content + "\n\nAssistant:"@
}

/// The first `n` of `s`, or all of `s` where it has no more.
pub open spec fn first_of<T>(s: Seq<T>, n: int) -> Seq<T> {
    if s.len() <= n {
        s
    } else if n >= 0 {
        s.subrange(0, n)
    } else {
        Seq::empty()
    }
}

/// `context` without the messages whose identifier is `id`, in the same order.
pub open spec fn without(context: Seq<StoredMessageView>, id: u128) -> Seq<StoredMessageView>
    decreases context.len(),
{
    if context.len() == 0 {
        Seq::empty()
    } else if context.last().id == id {
        without(context.drop_last(), id)
    } else {
        without(context.drop_last(), id).push(context.last())
    }
}

/// Renders the prompt: the earlier messages from oldest to newest, each as a
/// `Human:` or `Assistant:` line under a heading, then the current message as
/// `Human:` and the cue `Assistant:`. `context` comes newest first, as the
/// store hands it out; a message counts as the assistant's where its sender
/// is `system_user_id`. Without earlier messages the heading is left out.
pub fn build_prompt(content: &str, context: &Vec<StoredMessage>, system_user_id: &str) -> (prompt:
    String)
    ensures
        prompt@ == prompt_text(content@, messages_view(context@), system_user_id@),
{
    let ghost cv = messages_view(context@);
    let ghost system = system_user_id@;
    let mut prompt: String = String::new();
    if context.len() > 0 {
        prompt.append("Previous conversation:\n");
        let ghost head = prompt@;
        let mut i: usize = context.len();
        assert(head =~= "Previous conversation:\n"@);
        assert(cv.take(i as int) =~= cv);
        while i > 0
            invariant
                i <= context.len(),
                cv == messages_view(context@),
                system == system_user_id@,
                head == "Previous conversation:\n"@,
                prompt@ + history(cv.take(i as int), system) == head + history(cv, system),
            decreases i,
        {
            let ghost before = prompt@;
            let m: &StoredMessage = &context[i - 1];
            let speaker: &str = if same_text(m.user_id.as_str(), system_user_id) {
                "Assistant"
            } else {
                "Human"
            };
            prompt.append(speaker);
            prompt.append(": ");
            prompt.append(m.content.as_str());
            prompt.append("\n");
            proof {
                let t = cv.take(i as int);
                assert(t.last() == cv[i - 1]);
                assert(cv[i - 1] == m@);
                assert(t.drop_last() =~= cv.take(i - 1));
                assert(prompt@ =~= before + line(m@, system));
                assert(history(t, system) == line(m@, system) + history(cv.take(i - 1), system));
                assert(prompt@ + history(cv.take(i - 1), system) =~= before + history(t, system));
            }
            i -= 1;
        }
        assert(cv.take(0) =~= Seq::<StoredMessageView>::empty());
        assert(prompt@ =~= head + history(cv, system));
        prompt.append("\n");
    }
    let ghost start = prompt@;
    prompt.append("Human: ");
    prompt.append(content);
    prompt.append("\n\nAssistant:");
    assert(prompt@ =~= start + "Human: "@ + content@ + "\n\nAssistant:"@);
    assert(cv.take(cv.len() as int) =~= cv);
    prompt
}

/// Keeps the first `n` of `context` and drops the others.
pub fn keep_first(context: Vec<StoredMessage>, n: usize) -> (rest: Vec<StoredMessage>)
    ensures
        messages_view(rest@) == first_of(messages_view(context@), n as int),
{
    let mut rest: Vec<StoredMessage> = context;
    rest.truncate(n);
    assert(messages_view(rest@) =~= first_of(messages_view(context@), n as int));
    rest
}

/// Leaves out of `context` the messages whose identifier is `id`.
pub fn exclude(context: Vec<StoredMessage>, id: u128) -> (rest: Vec<StoredMessage>)
    ensures
        messages_view(rest@) == without(messages_view(context@), id),
{
    let ghost cv = messages_view(context@);
    let mut rest: Vec<StoredMessage> = Vec::new();
    let mut i: usize = 0;
    while i < context.len()
        invariant
            i <= context.len(),
            cv == messages_view(context@),
            messages_view(rest@) == without(cv.take(i as int), id),
        decreases context.len() - i,
    {
        let ghost before = messages_view(rest@);
        proof {
            let t = cv.take(i + 1);
            assert(t.last() == cv[i as int]);
            assert(t.drop_last() =~= cv.take(i as int));
        }
        if context[i].id != id {
            rest.push(context[i].duplicate());
            assert(messages_view(rest@) =~= before.push(cv[i as int]));
        }
        i += 1;
    }
    assert(cv.take(cv.len() as int) =~= cv);
    rest
}

} // verus!

//! What holds of request building for every conversation.

use vstd::prelude::*;

use crate::conversion::{
    conversation_entries, message_entries, message_well_formed, messages_well_formed,
    names_after, names_known, names_with, response_payload, result_entry, text_entries,
    tool_sets, tools_well_formed, MessageView, ToolResultView, ToolUseView, ToolView,
};
use crate::json::JsonValue;
use crate::schema_laws::lemma_cleaned_well_formed;
use crate::correlator::resolved;
use crate::types::{ContentView, PartView};

verus! {

/// Whether an entry carries text.
pub open spec fn is_text_entry(entry: ContentView) -> bool {
    entry.parts.len() == 1 && entry.parts[0] is Text
}

/// How many of the entries carry text.
pub open spec fn text_count(entries: Seq<ContentView>) -> nat
    decreases entries.len(),
{
    if entries.len() == 0 {
        0
    } else {
        text_count(entries.drop_last()) + (if is_text_entry(entries.last()) {
            1nat
        } else {
            0nat
        })
    }
}

/// The text of a turn.
pub open spec fn content_of(message: MessageView) -> Seq<char> {
    match message {
        MessageView::UserMessage { content, .. } => content,
        MessageView::AssistantMessage { content, .. } => content,
    }
}

/// The tool calls of a turn, in order: none for a user's turn.
pub open spec fn uses_in(message: MessageView) -> Seq<ToolUseView> {
    match message {
        MessageView::AssistantMessage { tool_uses: Some(uses), .. } => uses,
        _ => Seq::empty(),
    }
}

/// The tool calls of all the turns, in order.
pub open spec fn uses_of(messages: Seq<MessageView>) -> Seq<ToolUseView>
    decreases messages.len(),
{
    if messages.len() == 0 {
        Seq::empty()
    } else {
        uses_of(messages.drop_last()) + uses_in(messages.last())
    }
}

/// Entries without text count as none, wherever they stand.
proof fn lemma_text_count_without_text(front: Seq<ContentView>, back: Seq<ContentView>)
    requires
        forall|i: int| 0 <= i < back.len() ==> !is_text_entry(#[trigger] back[i]),
    ensures
        text_count(front + back) == text_count(front),
    decreases back.len(),
{
    if back.len() == 0 {
        assert(front + back =~= front);
    } else {
        let all = front + back;
        assert(all.drop_last() =~= front + back.drop_last());
        assert(all.last() == back[back.len() - 1]);
        lemma_text_count_without_text(front, back.drop_last());
    }
}

/// A turn gives no text entry where its text is empty, and exactly one
/// where it is not; that one stands first.
pub proof fn lemma_text_entries_of_turn(names: Map<Seq<char>, Seq<char>>, message: MessageView)
    ensures
        text_count(message_entries(names, message)) == (if content_of(message).len() == 0 {
            0nat
        } else {
            1nat
        }),
        content_of(message).len() > 0 ==> message_entries(names, message).len() > 0
            && message_entries(names, message)[0].parts == seq![
            PartView::Text { text: content_of(message) },
        ],
{
    let role = match message {
        MessageView::UserMessage { .. } => "user"@,
        MessageView::AssistantMessage { .. } => "model"@,
    };
    let front = text_entries(role, content_of(message));
    let all = message_entries(names, message);
    let back = all.skip(front.len() as int);
    assert(all =~= front + back);
    assert forall|i: int| 0 <= i < back.len() implies !is_text_entry(#[trigger] back[i]) by {
        assert(back[i] == all[front.len() + i]);
    }
    lemma_text_count_without_text(front, back);
    if content_of(message).len() > 0 {
        assert(front.drop_last() =~= Seq::<ContentView>::empty());
        assert(text_count(Seq::<ContentView>::empty()) == 0);
        assert(is_text_entry(front.last()));
    }
}

/// Recording calls one list after another is recording the two lists in a
/// row.
proof fn lemma_names_with_concat(
    names: Map<Seq<char>, Seq<char>>,
    front: Seq<ToolUseView>,
    back: Seq<ToolUseView>,
)
    ensures
        names_with(names, front + back) == names_with(names_with(names, front), back),
    decreases back.len(),
{
    if back.len() == 0 {
        assert(front + back =~= front);
    } else {
        let all = front + back;
        assert(all.drop_last() =~= front + back.drop_last());
        assert(all.last() == back.last());
        lemma_names_with_concat(names, front, back.drop_last());
    }
}

/// The names known after some turns are the names of the tool calls made
/// in them, recorded in order.
pub proof fn lemma_names_known_by_uses(messages: Seq<MessageView>)
    ensures
        names_known(messages) == names_with(Map::empty(), uses_of(messages)),
    decreases messages.len(),
{
    if messages.len() > 0 {
        let front = messages.drop_last();
        lemma_names_known_by_uses(front);
        lemma_names_with_concat(Map::empty(), uses_of(front), uses_in(messages.last()));
        match messages.last() {
            MessageView::AssistantMessage { tool_uses: Some(uses), .. } => {},
            _ => {
                assert(names_after(names_known(front), messages.last()) == names_known(front));
                assert(names_with(names_known(front), Seq::empty()) == names_known(front));
            },
        }
    }
}

/// An identifier under which no call was recorded stands for itself.
proof fn lemma_unrecorded(uses: Seq<ToolUseView>, id: Seq<char>)
    requires
        forall|j: int| 0 <= j < uses.len() ==> (#[trigger] uses[j]).tool_use_id != id,
    ensures
        !names_with(Map::empty(), uses).contains_key(id),
    decreases uses.len(),
{
    if uses.len() > 0 {
        let front = uses.drop_last();
        assert forall|j: int| 0 <= j < front.len() implies (#[trigger] front[j]).tool_use_id
            != id by {
            assert(front[j] == uses[j]);
        }
        lemma_unrecorded(front, id);
        assert(uses.last() == uses[uses.len() - 1]);
    }
}

/// An identifier stands for the name of the last call recorded under it.
proof fn lemma_recorded(uses: Seq<ToolUseView>, at: int)
    requires
        0 <= at < uses.len(),
        forall|j: int|
            at < j < uses.len() ==> (#[trigger] uses[j]).tool_use_id != uses[at].tool_use_id,
    ensures
        names_with(Map::empty(), uses).contains_key(uses[at].tool_use_id),
        names_with(Map::empty(), uses)[uses[at].tool_use_id] == uses[at].name,
    decreases uses.len(),
{
    if at < uses.len() - 1 {
        let front = uses.drop_last();
        assert(front[at] == uses[at]);
        assert forall|j: int| at < j < front.len() implies (#[trigger] front[j]).tool_use_id
            != front[at].tool_use_id by {
            assert(front[j] == uses[j]);
        }
        lemma_recorded(front, at);
        assert(uses.last() == uses[uses.len() - 1]);
    }
}

/// The name under which a function-response entry reports.
pub open spec fn reported_name(entry: ContentView) -> Seq<char> {
    entry.parts[0]->function_response.name
}

/// A tool result is reported under the name of the latest earlier call
/// with its identifier: where `earlier` holds the turns before the result,
/// and the call at `at` among their tool calls has the result's identifier
/// and no later one has, the function-response entry bears that call's
/// name.
pub proof fn lemma_result_named_by_latest_call(
    earlier: Seq<MessageView>,
    at: int,
    result: ToolResultView,
)
    requires
        0 <= at < uses_of(earlier).len(),
        uses_of(earlier)[at].tool_use_id == result.tool_use_id,
        forall|j: int|
            at < j < uses_of(earlier).len() ==> (#[trigger] uses_of(earlier)[j]).tool_use_id
                != result.tool_use_id,
    ensures
        reported_name(result_entry(names_known(earlier), result)) == uses_of(earlier)[at].name,
{
    lemma_names_known_by_uses(earlier);
    lemma_recorded(uses_of(earlier), at);
}

/// A tool result for which there is no earlier call is reported under its
/// own identifier.
pub proof fn lemma_result_without_call_named_by_id(
    earlier: Seq<MessageView>,
    result: ToolResultView,
)
    requires
        forall|j: int|
            0 <= j < uses_of(earlier).len() ==> (#[trigger] uses_of(earlier)[j]).tool_use_id
                != result.tool_use_id,
    ensures
        reported_name(result_entry(names_known(earlier), result)) == result.tool_use_id,
{
    lemma_names_known_by_uses(earlier);
    lemma_unrecorded(uses_of(earlier), result.tool_use_id);
}

/// The payload of a function response is well-formed where the content
/// is.
pub proof fn lemma_payload_well_formed(content: JsonValue, status: Seq<char>)
    requires
        content.well_formed(),
    ensures
        response_payload(content, status).well_formed(),
{
}

/// The entries of a turn carry well-formed values where the turn does.
proof fn lemma_message_entries_well_formed(names: Map<Seq<char>, Seq<char>>, message: MessageView)
    requires
        message_well_formed(message),
    ensures
        forall|i: int|
            0 <= i < message_entries(names, message).len() ==> (#[trigger] message_entries(
                names,
                message,
            )[i]).well_formed(),
{
    let all = message_entries(names, message);
    let role = match message {
        MessageView::UserMessage { .. } => "user"@,
        MessageView::AssistantMessage { .. } => "model"@,
    };
    let front = text_entries(role, content_of(message));
    assert forall|i: int| 0 <= i < all.len() implies (#[trigger] all[i]).well_formed() by {
        if i < front.len() {
            assert(all[i] == front[i]);
        } else {
            let k = i - front.len();
            match message {
                MessageView::UserMessage { tool_results: Some(results), .. } => {
                    assert(results[k].content.well_formed());
                    lemma_payload_well_formed(results[k].content, results[k].status);
                    assert(all[i] == result_entry(names, results[k]));
                },
                MessageView::AssistantMessage { tool_uses: Some(uses), .. } => {
                    assert(uses[k].args.well_formed());
                },
                _ => {},
            }
        }
    }
}

/// The entries of a conversation carry well-formed values where its turns
/// do.
pub proof fn lemma_entries_well_formed(messages: Seq<MessageView>)
    requires
        messages_well_formed(messages),
    ensures
        forall|i: int|
            0 <= i < conversation_entries(messages).len() ==> (#[trigger] conversation_entries(
                messages,
            )[i]).well_formed(),
    decreases messages.len(),
{
    if messages.len() > 0 {
        let front = messages.drop_last();
        assert forall|i: int| 0 <= i < front.len() implies message_well_formed(
            #[trigger] front[i],
        ) by {
            assert(front[i] == messages[i]);
        }
        lemma_entries_well_formed(front);
        assert(messages.last() == messages[messages.len() - 1]);
        lemma_message_entries_well_formed(names_known(front), messages.last());
        let all = conversation_entries(messages);
        let before = conversation_entries(front);
        let added = message_entries(names_known(front), messages.last());
        assert forall|i: int| 0 <= i < all.len() implies (#[trigger] all[i]).well_formed() by {
            if i < before.len() {
                assert(all[i] == before[i]);
            } else {
                assert(all[i] == added[i - before.len()]);
            }
        }
    }
}

/// The declarations of tools carry well-formed schemas where the tools do.
pub proof fn lemma_tool_sets_well_formed(tools: Seq<ToolView>)
    requires
        tools_well_formed(tools),
    ensures
        forall|i: int, k: int|
            0 <= i < tool_sets(tools).len() && 0 <= k < tool_sets(tools)[i].len() ==> (
            #[trigger] tool_sets(tools)[i][k]).parameters.well_formed(),
{
    let sets = tool_sets(tools);
    assert forall|i: int, k: int| 0 <= i < sets.len() && 0 <= k < sets[i].len() implies (
    #[trigger] sets[i][k]).parameters.well_formed() by {
        assert(tools[k].parameters.well_formed());
        lemma_cleaned_well_formed(tools[k].parameters);
    }
}

} // verus!

//! Finding a chat by what a person would type for it.
use vstd::prelude::*;
use crate::model::Chat;

verus! {

/// The chat's identifier, or its display name, is exactly `term`.
pub open spec fn chat_matches(chat: Chat, term: Seq<char>) -> bool {
    chat.identifier@ == term || (chat.display_name matches Some(d) && d@ == term)
}

/// Returns the id of the first chat, in the order given, whose identifier or
/// display name equals `term` exactly, or `None` when no chat does.
pub fn resolve_chat(chats: &Vec<Chat>, term: &String) -> (r: Option<i32>)
    ensures
        match r {
            Some(id) => exists|k: int|
                0 <= k < chats@.len() && chat_matches(chats@[k], term@) && chats@[k].id == id
                    && forall|j: int| 0 <= j < k ==> !chat_matches(#[trigger] chats@[j], term@),
            None => forall|j: int| 0 <= j < chats@.len() ==> !chat_matches(#[trigger] chats@[j], term@),
        },
{
    let mut i: usize = 0;
    while i < chats.len()
        invariant
            0 <= i <= chats@.len(),
            forall|j: int| 0 <= j < i ==> !chat_matches(#[trigger] chats@[j], term@),
        decreases chats@.len() - i,
    {
        let chat = &chats[i];
        let named = match &chat.display_name {
            Some(d) => d.eq(term),
            None => false,
        };
        if chat.identifier.eq(term) || named {
            assert(chat_matches(chats@[i as int], term@));
            return Some(chat.id);
        }
        i = i + 1;
    }
    None
}

} // verus!

//! The records handed out by the library.
use vstd::prelude::*;

verus! {

/// A row of the store's chat table.
#[derive(Debug, Clone, PartialEq, Eq)]
pub struct Chat {
    pub id: i32,
    pub identifier: String,
    pub service_name: Option<String>,
    pub display_name: Option<String>,
}

/// A message, with the aggregates that the listing query computes.
#[derive(Debug, Clone, PartialEq, Eq)]
pub struct Message {
    pub id: i32,
    pub guid: String,
    pub timestamp: i64,
    pub handle_id: Option<i32>,
    pub chat_id: Option<i32>,
    pub body: Option<String>,
    pub attachment_count: u32,
    pub reply_count: u32,
    pub deleted_from_chat_id: Option<i32>,
}

/// What a message listing is filtered by.
#[derive(Debug, Clone, Copy, PartialEq, Eq, Structural)]
pub enum Selector {
    ByChatId(i32),
    ByHandleId(i32),
}

/// The generation of store layout that a query was written for.
#[derive(Debug, Clone, Copy, PartialEq, Eq, Structural)]
pub enum Schema {
    /// The store tracks recoverable messages and thread originators.
    Full,
    /// An older store: neither is available.
    Legacy,
}

impl Selector {
    /// The value bound to the query's single parameter.
    pub fn key(&self) -> (r: i32)
        ensures
            r == match *self {
                Selector::ByChatId(c) => c,
                Selector::ByHandleId(h) => h,
            },
    {
        match *self {
            Selector::ByChatId(c) => c,
            Selector::ByHandleId(h) => h,
        }
    }
}

} // verus!

//! Reading conversations and their messages page by page.

use crate::db::models::{Conversation, StoredMessage};
use crate::error::{ErrorKind, ServiceError};
use crate::handler::clamp_i64;
use crate::table::same_text;
use vstd::prelude::*;

verus! {

/// The largest page that is handed out.
pub const MAX_PAGE_SIZE: i64 = 100;

/// The size of a page of conversations where the caller names none.
pub const DEFAULT_PAGE_SIZE: i64 = 20;

/// The number of messages that is handed out where the caller names none.
pub const DEFAULT_MESSAGE_LIMIT: i64 = 50;

/// What a caller asks for when listing conversations.
#[derive(Debug)]
pub struct ConversationQuery {
    pub user_id: String,
    pub include_inactive: Option<bool>,
    pub page: Option<i64>,
    pub page_size: Option<i64>,
}

/// What a caller asks for when reading the messages of a conversation.
#[derive(Debug, Clone, Copy, PartialEq, Eq, Structural)]
pub struct MessagesQuery {
    pub offset: Option<i64>,
    pub limit: Option<i64>,
}

/// A page of conversations.
#[derive(Debug)]
pub struct ConversationsData {
    pub conversations: Vec<Conversation>,
    /// How many conversations there are on all pages together.
    pub total_count: i64,
    /// Whether pages follow this one.
    pub has_more: bool,
}

/// The answer to a request for a page of conversations.
#[derive(Debug)]
pub struct ConversationsResponse {
    pub success: bool,
    pub data: ConversationsData,
}

/// Some of the messages of a conversation.
#[derive(Debug)]
pub struct MessagesData {
    pub messages: Vec<StoredMessage>,
    /// Whether more messages may follow: as many came as were asked for. Where
    /// the last messages fill the limit exactly, this says that more follow
    /// though none do.
    pub has_more: bool,
}

/// The size of a page: what was asked for, but no more than
/// [`MAX_PAGE_SIZE`].
pub open spec fn capped(size: i64) -> i64 {
    if size > MAX_PAGE_SIZE {
        MAX_PAGE_SIZE
    } else {
        size
    }
}

/// The number of a page: what was asked for, but not below the first page,
/// which is page 0.
pub open spec fn floored(n: i64) -> i64 {
    if n < 0 {
        0
    } else {
        n
    }
}

/// How many conversations lie before page `page` where pages hold
/// `page_size`, as far as an `i64` can say.
pub open spec fn page_offset(page_size: i64, page: i64) -> i64 {
    clamp_i64(capped(page_size) * floored(page))
}

/// Whether conversations follow page `page` where pages hold `page_size` and
/// there are `total_count` in all.
pub open spec fn more_pages(page_size: i64, page: i64, total_count: i64) -> bool {
    (floored(page) + 1) * capped(page_size) < total_count
}

impl ConversationQuery {
    /// Whether closed conversations are asked for; they are not unless the
    /// caller says so.
    pub fn wants_inactive(&self) -> (b: bool)
        ensures
            b == self.include_inactive.unwrap_or(false),
    {
        match self.include_inactive {
            Some(b) => b,
            None => false,
        }
    }

    /// The size of the pages: what the caller asked for or
    /// [`DEFAULT_PAGE_SIZE`], but no more than [`MAX_PAGE_SIZE`].
    pub fn limit(&self) -> (n: i64)
        ensures
            n == capped(self.page_size.unwrap_or(DEFAULT_PAGE_SIZE)),
    {
        cap(
            match self.page_size {
                Some(n) => n,
                None => DEFAULT_PAGE_SIZE,
            },
        )
    }

    /// The number of the page: what the caller asked for, or the first page.
    pub fn page_number(&self) -> (n: i64)
        ensures
            n == floored(self.page.unwrap_or(0)),
    {
        match self.page {
            Some(n) => if n < 0 {
                0
            } else {
                n
            },
            None => 0,
        }
    }

    /// How many conversations lie before the page that is asked for.
    pub fn offset(&self) -> (n: i64)
        ensures
            n == page_offset(
                self.page_size.unwrap_or(DEFAULT_PAGE_SIZE),
                self.page.unwrap_or(0),
            ),
    {
        offset_of(self.limit(), self.page_number())
    }
}

impl MessagesQuery {
    /// The number of messages that is asked for: what the caller named or
    /// [`DEFAULT_MESSAGE_LIMIT`], but no more than [`MAX_PAGE_SIZE`].
    pub fn limit(&self) -> (n: i64)
        ensures
            n == capped(self.limit.unwrap_or(DEFAULT_MESSAGE_LIMIT)),
    {
        cap(
            match self.limit {
                Some(n) => n,
                None => DEFAULT_MESSAGE_LIMIT,
            },
        )
    }

    /// How many messages are passed over: what the caller named, and none
    /// where that is nothing or less than nothing.
    pub fn offset(&self) -> (n: i64)
        ensures
            n == floored(self.offset.unwrap_or(0)),
    {
        match self.offset {
            Some(n) => if n < 0 {
                0
            } else {
                n
            },
            None => 0,
        }
    }
}

/// `size`, but no more than [`MAX_PAGE_SIZE`].
pub fn cap(size: i64) -> (n: i64)
    ensures
        n == capped(size),
{
    if size > MAX_PAGE_SIZE {
        MAX_PAGE_SIZE
    } else {
        size
    }
}

/// How many items lie before page `page` where pages hold `page_size`.
pub fn offset_of(page_size: i64, page: i64) -> (n: i64)
    ensures
        n == page_offset(page_size, page),
{
    let size: i64 = cap(page_size);
    let number: i64 = if page < 0 {
        0
    } else {
        page
    };
    assert(-0x8000_0000_0000_0000 * 0x8000_0000_0000_0000 <= size * number <= 100
        * 0x7fff_ffff_ffff_ffff) by (nonlinear_arith)
        requires
            -0x8000_0000_0000_0000 <= size <= 100,
            0 <= number <= 0x7fff_ffff_ffff_ffff,
    ;
    let product: i128 = (size as i128) * (number as i128);
    if product > i64::MAX as i128 {
        i64::MAX
    } else if product < i64::MIN as i128 {
        i64::MIN
    } else {
        product as i64
    }
}

/// Whether conversations follow page `page` where pages hold `page_size` and
/// there are `total_count` in all.
pub fn has_more_pages(page_size: i64, page: i64, total_count: i64) -> (b: bool)
    ensures
        b == more_pages(page_size, page, total_count),
{
    let size: i64 = cap(page_size);
    let number: i64 = if page < 0 {
        0
    } else {
        page
    };
    assert(-0x8000_0000_0000_0000 * 0x8000_0000_0000_0000 <= (number + 1) * size <= 100
        * 0x8000_0000_0000_0000) by (nonlinear_arith)
        requires
            -0x8000_0000_0000_0000 <= size <= 100,
            0 <= number <= 0x7fff_ffff_ffff_ffff,
    ;
    ((number as i128) + 1) * (size as i128) < (total_count as i128)
}

/// Whether more messages may follow `returned` messages that were asked for
/// with the limit `limit`: as many came as were asked for.
pub fn has_more_messages(returned: usize, limit: i64) -> (b: bool)
    ensures
        b == (returned == limit),
{
    limit >= 0 && (returned as u128) == (limit as u128)
}

/// The answer to a request for a page of conversations: the page, the number
/// of conversations in all, and whether pages follow.
pub fn handle_list_conversations(
    query: &ConversationQuery,
    conversations: Vec<Conversation>,
    total_count: i64,
) -> (r: ConversationsResponse)
    ensures
        r.success,
        r.data.conversations == conversations,
        r.data.total_count == total_count,
        r.data.has_more == more_pages(
            query.page_size.unwrap_or(DEFAULT_PAGE_SIZE),
            query.page.unwrap_or(0),
            total_count,
        ),
{
    let has_more: bool = has_more_pages(
        match query.page_size {
            Some(n) => n,
            None => DEFAULT_PAGE_SIZE,
        },
        match query.page {
            Some(n) => n,
            None => 0,
        },
        total_count,
    );
    ConversationsResponse {
        success: true,
        data: ConversationsData { conversations, total_count, has_more },
    }
}

/// The answer to a request for one conversation, given what the store found:
/// the conversation, or `NotFound`.
pub fn handle_get_conversation(found: Option<Conversation>) -> (r: Result<
    Conversation,
    ServiceError,
>)
    ensures
        match r {
            Ok(c) => found == Some(c),
            Err(e) => found is None && e@.kind == ErrorKind::NotFound && e@.detail
                == "conversation"@,
        },
{
    match found {
        Some(c) => Ok(c),
        None => Err(ServiceError::NotFound(String::from_str("conversation"))),
    }
}

/// Checks that `user_id` owns `conversation`; anyone else is turned away
/// with `Unauthorized`.
pub fn authorize(conversation: &Conversation, user_id: &str) -> (r: Result<(), ServiceError>)
    ensures
        r is Ok <==> conversation@.user_id == user_id@,
        r matches Err(e) ==> e@.kind == ErrorKind::Unauthorized && e@.detail == user_id@,
{
    if same_text(conversation.user_id.as_str(), user_id) {
        Ok(())
    } else {
        Err(ServiceError::Unauthorized(String::from_str(user_id)))
    }
}

/// The answer to a request for messages of a conversation: the messages and
/// whether more may follow.
pub fn handle_conversation_messages(query: &MessagesQuery, messages: Vec<StoredMessage>) -> (r:
    MessagesData)
    ensures
        r.messages == messages,
        r.has_more == (messages.len() == capped(query.limit.unwrap_or(DEFAULT_MESSAGE_LIMIT))),
{
    let has_more: bool = has_more_messages(messages.len(), query.limit());
    MessagesData { messages, has_more }
}

} // verus!

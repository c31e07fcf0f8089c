//! The inbound update payload shapes, and the process configuration.

use vstd::prelude::*;
use crate::digits::int_dec_str;

verus! {

/// The account that sent a message.
pub struct Sender {
    pub id: i64,
    pub is_bot: bool,
    pub first_name: String,
    pub username: String,
    pub language_code: String,
}

/// A one-to-one conversation.
pub struct PrivateChat {
    pub id: i64,
    pub first_name: String,
    pub username: String,
    pub chat_type: String,
}

/// A group conversation; the only variant that carries a title used for grouping.
pub struct SupergroupChat {
    pub id: i64,
    pub title: String,
    pub chat_type: String,
}

/// The conversation a message belongs to, discriminated by the payload's type tag.
pub enum Chat {
    Private(PrivateChat),
    Supergroup(SupergroupChat),
}

/// One rendition of an image attachment.
pub struct Photo {
    pub file_id: String,
    pub file_unique_id: String,
    pub file_size: i64,
    pub width: i64,
    pub height: i64,
}

/// An inbound message: text, photo renditions and caption are each optional.
pub struct Message {
    pub message_id: i64,
    pub from: Sender,
    pub chat: Chat,
    pub date: i64,
    pub text: Option<String>,
    pub photo: Option<Vec<Photo>>,
    pub caption: Option<String>,
}

/// The top-level inbound event.
pub struct TelegramUpdate {
    pub update_id: i64,
    pub message: Message,
}

/// Process-wide configuration, loaded once at startup and shared read-only.
pub struct Config {
    pub aws_region: String,
    pub s3_bucket_name: String,
    pub telegram_bot_token: String,
    pub server_url: String,
}

impl Clone for Photo {
    fn clone(&self) -> (r: Self)
        ensures
            r == *self,
    {
        Photo {
            file_id: self.file_id.clone(),
            file_unique_id: self.file_unique_id.clone(),
            file_size: self.file_size,
            width: self.width,
            height: self.height,
        }
    }
}

/// The display name used to group a conversation's media: the title of a
/// supergroup, and empty for a private chat.
pub open spec fn group_name_spec(c: Chat) -> Seq<char> {
    match c {
        Chat::Supergroup(s) => s.title@,
        Chat::Private(_) => Seq::empty(),
    }
}

/// The conversation identifier recorded with a message: the decimal id of a
/// supergroup, and empty for a private chat.
pub open spec fn project_id_spec(c: Chat) -> Seq<char> {
    match c {
        Chat::Supergroup(s) => int_dec_str(s.id as int),
        Chat::Private(_) => Seq::empty(),
    }
}

pub fn group_name_of(chat: &Chat) -> (r: String)
    ensures
        r@ == group_name_spec(*chat),
{
    match chat {
        Chat::Supergroup(s) => s.title.clone(),
        Chat::Private(_) => String::new(),
    }
}

pub fn project_id_of(chat: &Chat) -> (r: String)
    ensures
        r@ == project_id_spec(*chat),
{
    match chat {
        Chat::Supergroup(s) => crate::digits::i64_to_string(s.id),
        Chat::Private(_) => String::new(),
    }
}

} // verus!

//! The records that the remote service answers with, and what each stands
//! for. They are snapshots: built from one answer, read, and dropped.

use vstd::prelude::*;

verus! {

/// What an optional string stands for.
pub open spec fn opt_text(text: Option<String>) -> Option<Seq<char>> {
    match text {
        Some(t) => Some(t@),
        None => None,
    }
}

/// An account.
#[derive(Clone, Debug, PartialEq, Eq)]
pub struct User {
    /// The account's key. It is compared, never interpreted.
    pub pk: String,
    /// The handle, unique among accounts whatever the case of its letters.
    pub username: String,
    pub full_name: Option<String>,
    pub is_verified: Option<bool>,
    pub is_private: Option<bool>,
    pub follower_count: Option<u64>,
    pub following_count: Option<u64>,
}

/// What a [`User`] stands for.
pub struct UserView {
    pub pk: Seq<char>,
    pub username: Seq<char>,
    pub full_name: Option<Seq<char>>,
    pub is_verified: Option<bool>,
    pub is_private: Option<bool>,
    pub follower_count: Option<u64>,
    pub following_count: Option<u64>,
}

impl View for User {
    type V = UserView;

    open spec fn view(&self) -> UserView {
        UserView {
            pk: self.pk@,
            username: self.username@,
            full_name: opt_text(self.full_name),
            is_verified: self.is_verified,
            is_private: self.is_private,
            follower_count: self.follower_count,
            following_count: self.following_count,
        }
    }
}

/// One message of a thread.
#[derive(Clone, Debug, PartialEq, Eq)]
pub struct Message {
    /// The sender's key; absent for a message of the signed-in account.
    pub user_id: Option<String>,
    /// The text; absent for a message that carries media.
    pub text: Option<String>,
    /// When it was sent, as `YYYY-MM-DDTHH:MM:SS`.
    pub timestamp: Option<String>,
}

/// What a [`Message`] stands for.
pub struct MessageView {
    pub user_id: Option<Seq<char>>,
    pub text: Option<Seq<char>>,
    pub timestamp: Option<Seq<char>>,
}

impl View for Message {
    type V = MessageView;

    open spec fn view(&self) -> MessageView {
        MessageView {
            user_id: opt_text(self.user_id),
            text: opt_text(self.text),
            timestamp: opt_text(self.timestamp),
        }
    }
}

/// What a list of users stands for.
pub open spec fn user_views(users: Seq<User>) -> Seq<UserView> {
    users.map_values(|u: User| u@)
}

/// What a list of messages stands for.
pub open spec fn message_views(messages: Seq<Message>) -> Seq<MessageView> {
    messages.map_values(|m: Message| m@)
}

/// A conversation.
#[derive(Clone, Debug, PartialEq, Eq)]
pub struct Thread {
    /// The identifier that the service gave the thread.
    pub id: String,
    /// The participants, in the service's order.
    pub users: Vec<User>,
    pub thread_title: Option<String>,
    pub last_message_text: Option<String>,
    pub last_message_timestamp: Option<String>,
    pub has_unread: Option<bool>,
    /// The messages, newest first; present only where the thread was fetched
    /// by itself.
    pub messages: Option<Vec<Message>>,
}

/// What a [`Thread`] stands for.
pub struct ThreadView {
    pub id: Seq<char>,
    pub users: Seq<UserView>,
    pub thread_title: Option<Seq<char>>,
    pub last_message_text: Option<Seq<char>>,
    pub last_message_timestamp: Option<Seq<char>>,
    pub has_unread: Option<bool>,
    pub messages: Option<Seq<MessageView>>,
}

impl View for Thread {
    type V = ThreadView;

    open spec fn view(&self) -> ThreadView {
        ThreadView {
            id: self.id@,
            users: user_views(self.users@),
            thread_title: opt_text(self.thread_title),
            last_message_text: opt_text(self.last_message_text),
            last_message_timestamp: opt_text(self.last_message_timestamp),
            has_unread: self.has_unread,
            messages: match self.messages {
                Some(m) => Some(message_views(m@)),
                None => None,
            },
        }
    }
}

/// What a list of threads stands for.
pub open spec fn thread_views(threads: Seq<Thread>) -> Seq<ThreadView> {
    threads.map_values(|t: Thread| t@)
}

/// The answer to a request for the inbox.
#[derive(Clone, Debug, PartialEq, Eq)]
pub struct InboxResponse {
    pub success: bool,
    pub threads: Option<Vec<Thread>>,
    pub error: Option<String>,
}

/// What an [`InboxResponse`] stands for.
pub struct InboxResponseView {
    pub success: bool,
    pub threads: Option<Seq<ThreadView>>,
    pub error: Option<Seq<char>>,
}

impl View for InboxResponse {
    type V = InboxResponseView;

    open spec fn view(&self) -> InboxResponseView {
        InboxResponseView {
            success: self.success,
            threads: match self.threads {
                Some(t) => Some(thread_views(t@)),
                None => None,
            },
            error: opt_text(self.error),
        }
    }
}

/// The answer to a request for one thread.
#[derive(Clone, Debug, PartialEq, Eq)]
pub struct ThreadResponse {
    pub success: bool,
    pub thread: Option<Thread>,
    pub error: Option<String>,
}

/// What a [`ThreadResponse`] stands for.
pub struct ThreadResponseView {
    pub success: bool,
    pub thread: Option<ThreadView>,
    pub error: Option<Seq<char>>,
}

impl View for ThreadResponse {
    type V = ThreadResponseView;

    open spec fn view(&self) -> ThreadResponseView {
        ThreadResponseView {
            success: self.success,
            thread: match self.thread {
                Some(t) => Some(t@),
                None => None,
            },
            error: opt_text(self.error),
        }
    }
}

/// The answer to a sign-in.
#[derive(Clone, Debug, PartialEq, Eq)]
pub struct LoginResponse {
    pub success: bool,
    pub user: Option<User>,
    pub message: Option<String>,
}

/// What a [`LoginResponse`] stands for.
pub struct LoginResponseView {
    pub success: bool,
    pub user: Option<UserView>,
    pub message: Option<Seq<char>>,
}

impl View for LoginResponse {
    type V = LoginResponseView;

    open spec fn view(&self) -> LoginResponseView {
        LoginResponseView {
            success: self.success,
            user: match self.user {
                Some(u) => Some(u@),
                None => None,
            },
            message: opt_text(self.message),
        }
    }
}

/// The answer to a question after the state of the server and the session.
#[derive(Clone, Debug, PartialEq, Eq)]
pub struct HealthResponse {
    pub status: String,
    pub authenticated: bool,
    pub username: Option<String>,
}

/// What a [`HealthResponse`] stands for.
pub struct HealthResponseView {
    pub status: Seq<char>,
    pub authenticated: bool,
    pub username: Option<Seq<char>>,
}

impl View for HealthResponse {
    type V = HealthResponseView;

    open spec fn view(&self) -> HealthResponseView {
        HealthResponseView {
            status: self.status@,
            authenticated: self.authenticated,
            username: opt_text(self.username),
        }
    }
}

/// The answer to a search for an account.
#[derive(Clone, Debug, PartialEq, Eq)]
pub struct SearchResponse {
    pub user: Option<User>,
}

/// What a [`SearchResponse`] stands for.
pub struct SearchResponseView {
    pub user: Option<UserView>,
}

impl View for SearchResponse {
    type V = SearchResponseView;

    open spec fn view(&self) -> SearchResponseView {
        SearchResponseView {
            user: match self.user {
                Some(u) => Some(u@),
                None => None,
            },
        }
    }
}

} // verus!

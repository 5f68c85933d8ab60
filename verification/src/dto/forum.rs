//! Forum request and response shapes and their validation rules.

use vstd::prelude::*;
use vstd::string::StrSliceExecFns;

use crate::model::{Post, Section, Thread, UserRole};

verus! {

/// A request to open a thread: a title of at least three characters and a
/// body of at least ten.
pub struct CreateThreadDto {
    pub title: String,
    pub content: String,
    pub section: i64,
    pub hash_tags: Vec<String>,
}

impl CreateThreadDto {
    pub open spec fn valid(self) -> bool {
        self.title@.len() >= 3 && self.content@.len() >= 10
    }

    pub fn validate(&self) -> (r: bool)
        ensures
            r == self.valid(),
    {
        self.title.as_str().unicode_len() >= 3 && self.content.as_str().unicode_len() >= 10
    }
}

pub struct DeleteThreadDto {
    pub thread_id: i64,
}

/// A request to edit a thread, under the same length rules as creation.
pub struct UpdateThreadDto {
    pub thread_id: i64,
    pub title: String,
    pub content: String,
}

impl UpdateThreadDto {
    pub open spec fn valid(self) -> bool {
        self.title@.len() >= 3 && self.content@.len() >= 10
    }

    pub fn validate(&self) -> (r: bool)
        ensures
            r == self.valid(),
    {
        self.title.as_str().unicode_len() >= 3 && self.content.as_str().unicode_len() >= 10
    }
}

pub struct LockThreadDto {
    pub thread_id: i64,
    pub locked: bool,
}

/// A request to create a section: a name of at least three characters and
/// at least one role allowed to view it.
pub struct CreateSectionDto {
    pub name: String,
    pub description: String,
    pub allowed_for: Vec<UserRole>,
}

impl CreateSectionDto {
    pub open spec fn valid(self) -> bool {
        self.name@.len() >= 3 && self.allowed_for@.len() > 0
    }

    pub fn validate(&self) -> (r: bool)
        ensures
            r == self.valid(),
    {
        self.name.as_str().unicode_len() >= 3 && self.allowed_for.len() > 0
    }
}

pub struct DeleteSectionDto {
    pub s_id: i64,
}

impl DeleteSectionDto {
    pub open spec fn valid(self) -> bool {
        self.s_id >= 0
    }

    pub fn validate(&self) -> (r: bool)
        ensures
            r == self.valid(),
    {
        self.s_id >= 0
    }
}

/// A request for the chat feed, capped at one hundred messages.
pub struct GetChatDto {
    pub limit: usize,
}

impl GetChatDto {
    pub open spec fn valid(self) -> bool {
        self.limit <= 100
    }

    pub fn validate(&self) -> (r: bool)
        ensures
            r == self.valid(),
    {
        self.limit <= 100
    }
}

/// A chat message of at least three characters.
pub struct PostChatDto {
    pub content: String,
}

impl PostChatDto {
    pub open spec fn valid(self) -> bool {
        self.content@.len() >= 3
    }

    pub fn validate(&self) -> (r: bool)
        ensures
            r == self.valid(),
    {
        self.content.as_str().unicode_len() >= 3
    }
}

pub struct DeleteChatDto {
    pub post_id: i32,
}

impl DeleteChatDto {
    pub open spec fn valid(self) -> bool {
        self.post_id >= 0
    }

    pub fn validate(&self) -> (r: bool)
        ensures
            r == self.valid(),
    {
        self.post_id >= 0
    }
}

/// A request for a page of a thread.
pub struct GetThreadDto {
    pub thread_id: i64,
    pub page: i32,
    pub limit: usize,
}

impl GetThreadDto {
    pub open spec fn valid(self) -> bool {
        self.thread_id >= 0 && self.page >= 1
    }

    pub fn validate(&self) -> (r: bool)
        ensures
            r == self.valid(),
    {
        self.thread_id >= 0 && self.page >= 1
    }
}

pub struct UpdatePostDto {
    pub post_id: i64,
    pub content: String,
}

impl UpdatePostDto {
    pub open spec fn valid(self) -> bool {
        self.post_id >= 0
    }

    pub fn validate(&self) -> (r: bool)
        ensures
            r == self.valid(),
    {
        self.post_id >= 0
    }
}

pub struct DeletePostDto {
    pub post_id: i64,
}

impl DeletePostDto {
    pub open spec fn valid(self) -> bool {
        self.post_id >= 0
    }

    pub fn validate(&self) -> (r: bool)
        ensures
            r == self.valid(),
    {
        self.post_id >= 0
    }
}

pub struct GetThreadResponseDto {
    pub info: Thread,
    pub posts: Vec<Post>,
}

pub struct GetSectionsResponseDto {
    pub sections: Vec<Section>,
}

pub struct GetSectionResponseDto {
    pub threads: Vec<Thread>,
}

} // verus!

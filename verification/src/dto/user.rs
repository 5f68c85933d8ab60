//! Account request and response shapes and their validation rules.

use vstd::prelude::*;
use vstd::string::StrSliceExecFns;

use crate::account::{password_acceptable, validate_password};
use crate::model::{Post, PrivateMessage, Thread, User, UserRole, UserWarning};

verus! {

/// Whether a string has the shape of an e-mail address.
pub uninterp spec fn is_valid_email(s: Seq<char>) -> bool;

/// Relies on validator's ValidateEmail, the HTML5 e-mail shape check: its
/// verdict is a function of the characters alone, and an empty string is
/// never a valid address.
#[verifier::external_body]
fn email_ok(s: &String) -> (r: bool)
    ensures
        r == is_valid_email(s@),
        s@.len() == 0 ==> !r,
{
    validator::ValidateEmail::validate_email(s)
}

/// A registration request: a name, a plausible e-mail address, an
/// acceptable password, and its confirmation.
pub struct RegisterUserDto {
    pub name: String,
    pub email: String,
    pub password: String,
    pub password_confirm: String,
}

impl RegisterUserDto {
    pub open spec fn valid(self) -> bool {
        &&& self.name@.len() >= 1
        &&& self.email@.len() >= 1
        &&& is_valid_email(self.email@)
        &&& password_acceptable(self.password@)
        &&& self.password_confirm@.len() >= 1
        &&& self.password_confirm@ == self.password@
    }

    pub fn validate(&self) -> (r: bool)
        ensures
            r == self.valid(),
    {
        self.name.as_str().unicode_len() >= 1 && self.email.as_str().unicode_len() >= 1
            && email_ok(&self.email) && validate_password(self.password.as_str())
            && self.password_confirm.as_str().unicode_len() >= 1 && self.password_confirm
            == self.password
    }
}

/// A login request; the password must have at least three characters.
pub struct LoginUserDto {
    pub username: String,
    pub email: String,
    pub password: String,
}

impl LoginUserDto {
    pub open spec fn valid(self) -> bool {
        self.password@.len() >= 3
    }

    pub fn validate(&self) -> (r: bool)
        ensures
            r == self.valid(),
    {
        self.password.as_str().unicode_len() >= 3
    }
}

/// A paging request: pages start at one, at most fifty rows a page.
pub struct RequestQueryDto {
    pub page: Option<usize>,
    pub limit: Option<usize>,
}

impl RequestQueryDto {
    pub open spec fn valid(self) -> bool {
        &&& (self.page matches Some(p) ==> p >= 1)
        &&& (self.limit matches Some(l) ==> 1 <= l <= 50)
    }

    pub fn validate(&self) -> (r: bool)
        ensures
            r == self.valid(),
    {
        let page_ok = match self.page {
            Some(p) => p >= 1,
            None => true,
        };
        let limit_ok = match self.limit {
            Some(l) => 1 <= l && l <= 50,
            None => true,
        };
        page_ok && limit_ok
    }

    /// The page and page size a listing uses: the first page of ten rows
    /// unless the request names others.
    pub fn effective(&self) -> (r: (usize, usize))
        ensures
            r.0 == match self.page {
                Some(p) => p,
                None => 1usize,
            },
            r.1 == match self.limit {
                Some(l) => l,
                None => 10usize,
            },
    {
        let page = match self.page {
            Some(p) => p,
            None => 1,
        };
        let limit = match self.limit {
            Some(l) => l,
            None => 10,
        };
        (page, limit)
    }
}

/// The row offset of a one-based page, or nothing when the page number is
/// zero or the offset overflows the machine.
pub fn page_offset(page: usize, limit: usize) -> (r: Option<usize>)
    ensures
        match r {
            Some(o) => page >= 1 && o == (page - 1) * limit,
            None => page == 0 || (page - 1) * limit > usize::MAX,
        },
{
    if page == 0 {
        return None;
    }
    (page - 1).checked_mul(limit)
}

/// The public projection of an account: everything but the credential hash
/// and the token slots.
pub struct FilterUserDto {
    pub id: u128,
    pub name: String,
    pub email: String,
    pub role: String,
    pub verified: bool,
    pub created_at: i64,
    pub updated_at: Option<i64>,
    pub banned_until: Option<i64>,
    pub description: Option<String>,
    pub avatar: Option<String>,
    pub facebook: Option<String>,
    pub x_id: Option<String>,
}

/// The projection relation between an account and its public shape.
pub open spec fn projects(f: FilterUserDto, u: User) -> bool {
    &&& f.id == u.id
    &&& f.name == u.name
    &&& f.email == u.email
    &&& f.role@ == u.role.name()
    &&& f.verified == u.verified
    &&& f.created_at == u.created_at->0
    &&& f.updated_at == u.updated_at
    &&& f.banned_until == u.banned_until
    &&& f.description == u.description
    &&& f.avatar == u.avatar
    &&& f.facebook == u.facebook
    &&& f.x_id == u.x_id
}

impl FilterUserDto {
    /// Projects an account onto its public fields; the account must carry
    /// its creation instant.
    pub fn filter_user(user: &User) -> (r: FilterUserDto)
        requires
            user.created_at is Some,
        ensures
            projects(r, *user),
    {
        FilterUserDto {
            id: user.id,
            name: user.name.clone(),
            email: user.email.clone(),
            role: user.role.to_str(),
            verified: user.verified,
            created_at: match user.created_at {
                Some(t) => t,
                None => 0,
            },
            updated_at: user.updated_at,
            banned_until: user.banned_until,
            description: crate::model::clone_opt_string(&user.description),
            avatar: crate::model::clone_opt_string(&user.avatar),
            facebook: crate::model::clone_opt_string(&user.facebook),
            x_id: crate::model::clone_opt_string(&user.x_id),
        }
    }

    /// Projects a list of accounts, elementwise.
    pub fn filter_users(users: &Vec<User>) -> (r: Vec<FilterUserDto>)
        requires
            forall|i: int| 0 <= i < users@.len() ==> (#[trigger] users@[i]).created_at is Some,
        ensures
            r@.len() == users@.len(),
            forall|i: int|
                0 <= i < users@.len() ==> projects(#[trigger] r@[i], users@[i]),
    {
        let mut r: Vec<FilterUserDto> = Vec::new();
        let mut i: usize = 0;
        while i < users.len()
            invariant
                i <= users@.len(),
                r@.len() == i,
                forall|j: int|
                    0 <= j < users@.len() ==> (#[trigger] users@[j]).created_at is Some,
                forall|j: int| 0 <= j < i ==> projects(#[trigger] r@[j], users@[j]),
            decreases users.len() - i,
        {
            r.push(FilterUserDto::filter_user(&users[i]));
            i = i + 1;
        }
        r
    }
}

/// The name shown for a possibly removed account.
pub fn display_name(user: Option<&User>) -> (r: String)
    ensures
        match user {
            Some(u) => r@ == u.name@,
            None => r@ == "Deleted User"@,
        },
{
    match user {
        Some(u) => u.name.clone(),
        None => "Deleted User".to_owned(),
    }
}

/// A search over accounts; pages and page sizes start at one.
pub struct SearchUsersDto {
    pub name: Option<String>,
    pub email: Option<String>,
    pub role: Option<UserRole>,
    pub page: u32,
    pub limit: usize,
}

impl SearchUsersDto {
    pub open spec fn valid(self) -> bool {
        self.page >= 1 && self.limit >= 1
    }

    pub fn validate(&self) -> (r: bool)
        ensures
            r == self.valid(),
    {
        self.page >= 1 && self.limit >= 1
    }
}

/// A rename request; the name must not be empty.
pub struct NameUpdateDto {
    pub name: String,
}

impl NameUpdateDto {
    pub open spec fn valid(self) -> bool {
        self.name@.len() >= 1
    }

    pub fn validate(&self) -> (r: bool)
        ensures
            r == self.valid(),
    {
        self.name.as_str().unicode_len() >= 1
    }
}

/// An administrative account creation request.
pub struct AddUserDto {
    pub name: String,
    pub email: String,
    pub password: String,
    pub password_confirm: String,
}

impl AddUserDto {
    pub open spec fn valid(self) -> bool {
        &&& self.name@.len() >= 1
        &&& is_valid_email(self.email@)
        &&& password_acceptable(self.password@)
    }

    pub fn validate(&self) -> (r: bool)
        ensures
            r == self.valid(),
    {
        self.name.as_str().unicode_len() >= 1 && email_ok(&self.email) && validate_password(
            self.password.as_str(),
        )
    }
}

pub struct SaveUserDto {
    pub user: FilterUserDto,
}

pub struct RoleUpdateDto {
    pub role: UserRole,
}

/// A password change: an acceptable new password, its confirmation, and
/// the old password for proof of possession.
pub struct UserPasswordUpdateDto {
    pub new_password: String,
    pub new_password_confirm: String,
    pub old_password: String,
}

impl UserPasswordUpdateDto {
    pub open spec fn valid(self) -> bool {
        &&& password_acceptable(self.new_password@)
        &&& self.new_password_confirm@.len() >= 6
        &&& self.new_password_confirm@ == self.new_password@
        &&& self.old_password@.len() >= 6
    }

    pub fn validate(&self) -> (r: bool)
        ensures
            r == self.valid(),
    {
        validate_password(self.new_password.as_str())
            && self.new_password_confirm.as_str().unicode_len() >= 6 && self.new_password_confirm
            == self.new_password && self.old_password.as_str().unicode_len() >= 6
    }
}

/// A verification link's token.
pub struct VerifyEmailQueryDto {
    pub token: String,
}

impl VerifyEmailQueryDto {
    pub open spec fn valid(self) -> bool {
        self.token@.len() >= 1
    }

    pub fn validate(&self) -> (r: bool)
        ensures
            r == self.valid(),
    {
        self.token.as_str().unicode_len() >= 1
    }
}

/// A request to start a password reset.
pub struct ForgotPasswordRequestDto {
    pub email: String,
}

impl ForgotPasswordRequestDto {
    pub open spec fn valid(self) -> bool {
        self.email@.len() >= 1 && is_valid_email(self.email@)
    }

    pub fn validate(&self) -> (r: bool)
        ensures
            r == self.valid(),
    {
        self.email.as_str().unicode_len() >= 1 && email_ok(&self.email)
    }
}

/// A request to finish a password reset with a token.
pub struct ResetPasswordRequestDto {
    pub token: String,
    pub new_password: String,
    pub new_password_confirm: String,
}

impl ResetPasswordRequestDto {
    pub open spec fn valid(self) -> bool {
        &&& self.token@.len() >= 1
        &&& self.new_password@.len() >= 6
        &&& self.new_password_confirm@.len() >= 6
        &&& self.new_password_confirm@ == self.new_password@
    }

    pub fn validate(&self) -> (r: bool)
        ensures
            r == self.valid(),
    {
        self.token.as_str().unicode_len() >= 1 && self.new_password.as_str().unicode_len() >= 6
            && self.new_password_confirm.as_str().unicode_len() >= 6 && self.new_password_confirm
            == self.new_password
    }
}

pub struct RecentlyOnlineDto {
    pub since: i64,
    pub page: u32,
    pub limit: usize,
}

/// A moderation request: warn, with an optional comment and ban length.
pub struct WarnUserDto {
    pub uuid: u128,
    pub comment: Option<String>,
    pub warned_by: u128,
    pub banned: Option<i32>,
}

pub struct UnbanUserDto {
    pub uuid: u128,
}

pub struct SendPmDto {
    pub recipient_id: u128,
    pub content: String,
}

pub struct GetUserPmsDto {
    pub page: u32,
    pub limit: usize,
}

pub struct UserData {
    pub user: FilterUserDto,
}

pub struct UserResponseDto {
    pub status: String,
    pub data: UserData,
}

pub struct UserListResponseDto {
    pub status: String,
    pub users: Vec<FilterUserDto>,
    pub results: i64,
}

pub struct UserLoginResponseDto {
    pub status: String,
    pub token: String,
}

pub struct UserPostsResponseDto {
    pub posts: Vec<Post>,
}

pub struct UserThreadsResponseDto {
    pub threads: Vec<Thread>,
}

pub struct UserWarningsResponseDto {
    pub warnings: Vec<UserWarning>,
}

pub struct UserPmsResponseDto {
    pub pms: Vec<PrivateMessage>,
}

} // verus!

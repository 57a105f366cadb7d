//! User records and the request/response shapes of the user flows,
//! with the field-level validation the endpoints apply.

use vstd::prelude::*;
use vstd::string::StrSliceExecFns;

verus! {

/// A stored user. The password field holds the adaptive digest, never
/// a plaintext. `two_factor_secret` is present whenever 2FA is enabled
/// or an enrollment is pending; `backup_codes` holds hex-encoded
/// digests and is only meaningful while 2FA is enabled.
pub struct User {
    pub uuid: String,
    pub email: String,
    pub name: String,
    pub password: String,
    pub created_at: String,
    pub updated_at: String,
    pub two_factor_enabled: bool,
    pub two_factor_secret: Option<String>,
    pub backup_codes: Option<Vec<String>>,
}

/// Mathematical image of a user record.
pub ghost struct UserView {
    pub uuid: Seq<char>,
    pub email: Seq<char>,
    pub name: Seq<char>,
    pub password: Seq<char>,
    pub created_at: Seq<char>,
    pub updated_at: Seq<char>,
    pub two_factor_enabled: bool,
    pub two_factor_secret: Option<Seq<char>>,
    pub backup_codes: Option<Seq<Seq<char>>>,
}

impl View for User {
    type V = UserView;

    open spec fn view(&self) -> UserView {
        UserView {
            uuid: self.uuid@,
            email: self.email@,
            name: self.name@,
            password: self.password@,
            created_at: self.created_at@,
            updated_at: self.updated_at@,
            two_factor_enabled: self.two_factor_enabled,
            two_factor_secret: match self.two_factor_secret {
                Some(s) => Some(s@),
                None => None,
            },
            backup_codes: match self.backup_codes {
                Some(v) => Some(v.deep_view()),
                None => None,
            },
        }
    }
}

impl DeepView for User {
    type V = UserView;

    open spec fn deep_view(&self) -> UserView {
        self.view()
    }
}

/// Record invariant: an enabled second factor always has its secret.
pub open spec fn user_wf(u: UserView) -> bool {
    u.two_factor_enabled ==> u.two_factor_secret is Some
}

impl User {
    /// A fresh record as registration first shapes it: no password
    /// digest yet, the second factor off.
    pub fn new(uuid: String, email: String, name: String, created_at: String, updated_at: String)
        -> (u: User)
        ensures
            u@ == (UserView {
                uuid: uuid@,
                email: email@,
                name: name@,
                password: Seq::<char>::empty(),
                created_at: created_at@,
                updated_at: updated_at@,
                two_factor_enabled: false,
                two_factor_secret: None,
                backup_codes: None,
            }),
            user_wf(u@),
    {
        User {
            uuid,
            email,
            name,
            password: String::new(),
            created_at,
            updated_at,
            two_factor_enabled: false,
            two_factor_secret: None,
            backup_codes: None,
        }
    }

    /// A field-for-field copy of the record.
    pub fn clone_record(&self) -> (r: User)
        ensures
            r@ == self@,
    {
        User {
            uuid: self.uuid.clone(),
            email: self.email.clone(),
            name: self.name.clone(),
            password: self.password.clone(),
            created_at: self.created_at.clone(),
            updated_at: self.updated_at.clone(),
            two_factor_enabled: self.two_factor_enabled,
            two_factor_secret: match &self.two_factor_secret {
                Some(s) => Some(s.clone()),
                None => None,
            },
            backup_codes: match &self.backup_codes {
                Some(v) => Some(clone_string_vec(v)),
                None => None,
            },
        }
    }

    /// The public face of the record.
    pub fn without_password(&self) -> (r: UserResponseWithoutPassword)
        ensures
            r.uuid@ == self@.uuid,
            r.email@ == self@.email,
            r.name@ == self@.name,
            r.created_at@ == self@.created_at,
            r.updated_at@ == self@.updated_at,
            r.two_factor_enabled == self@.two_factor_enabled,
    {
        UserResponseWithoutPassword {
            uuid: self.uuid.clone(),
            email: self.email.clone(),
            name: self.name.clone(),
            created_at: self.created_at.clone(),
            updated_at: self.updated_at.clone(),
            two_factor_enabled: self.two_factor_enabled,
        }
    }
}

/// A field-for-field copy of a list of strings.
pub fn clone_string_vec(v: &Vec<String>) -> (r: Vec<String>)
    ensures
        r.deep_view() == v.deep_view(),
{
    let mut r: Vec<String> = Vec::new();
    let n = v.len();
    for i in 0..n
        invariant
            n == v@.len(),
            r@.len() == i,
            forall|j: int| 0 <= j < i ==> r@[j]@ == v@[j]@,
    {
        r.push(v[i].clone());
    }
    proof {
        assert(r.deep_view() =~= v.deep_view());
    }
    r
}

pub struct CreateUserRequest {
    pub email: String,
    pub password: String,
    pub name: String,
}

pub struct LoginRequest {
    pub email: String,
    pub password: String,
    pub totp_code: Option<String>,
}

pub struct RefreshTokenRequest {
    pub refresh_token: String,
}

pub struct UpdateUserRequest {
    pub email: String,
}

pub struct UpdateUserURL {
    pub uuid: String,
}

pub struct UserResponseWithoutPassword {
    pub uuid: String,
    pub email: String,
    pub name: String,
    pub created_at: String,
    pub updated_at: String,
    pub two_factor_enabled: bool,
}

pub struct UserResponse {
    pub user: UserResponseWithoutPassword,
    pub access_token: String,
    pub refresh_token: String,
    pub token_type: String,
}

pub struct TokenResponse {
    pub access_token: String,
    pub refresh_token: String,
    pub token_type: String,
}

pub struct Enable2FARequest {
    pub password: String,
}

pub struct Enable2FAResponse {
    pub secret: String,
    pub qr_code: String,
    pub message: String,
}

pub struct Verify2FARequest {
    pub code: String,
}

pub struct Verify2FAResponse {
    pub success: bool,
    pub message: String,
}

pub struct Disable2FARequest {
    pub password: String,
    pub code: String,
}

pub struct GenerateBackupCodesResponse {
    pub backup_codes: Vec<String>,
    pub message: String,
}

pub struct VerifyBackupCodeRequest {
    pub backup_code: String,
}

pub struct UseBackupCodeForLoginRequest {
    pub email: String,
    pub password: String,
    pub backup_code: String,
}

/// The email rule the endpoints enforce: at least six characters with
/// an at-sign strictly inside.
pub open spec fn valid_email(s: Seq<char>) -> bool {
    s.len() >= 6 && exists|i: int| 0 < i < s.len() - 1 && s[i] == '@'
}

/// The password rule: at least six characters.
pub open spec fn valid_password(s: Seq<char>) -> bool {
    s.len() >= 6
}

/// The display-name rule: non-empty.
pub open spec fn valid_name(s: Seq<char>) -> bool {
    s.len() >= 1
}

/// Checks the email rule.
pub fn check_email(s: &str) -> (r: bool)
    ensures
        r == valid_email(s@),
{
    let n = s.unicode_len();
    if n < 6 {
        return false;
    }
    let mut i: usize = 1;
    while i < n - 1
        invariant
            6 <= n == s@.len(),
            1 <= i <= n,
            forall|j: int| 0 < j < i ==> s@[j] != '@',
        decreases n - i,
    {
        if s.get_char(i) == '@' {
            proof {
                assert(0 < i < s@.len() - 1 && s@[i as int] == '@');
            }
            return true;
        }
        i = i + 1;
    }
    false
}

/// Checks a create-user request; rejected fields surface in order.
pub open spec fn valid_create_user(email: Seq<char>, password: Seq<char>, name: Seq<char>) -> bool {
    valid_email(email) && valid_password(password) && valid_name(name)
}

pub fn validate_create_user(req: &CreateUserRequest) -> (r: bool)
    ensures
        r == valid_create_user(req.email@, req.password@, req.name@),
{
    check_email(req.email.as_str()) && req.password.as_str().unicode_len() >= 6
        && req.name.as_str().unicode_len() >= 1
}

/// Checks a login request: the same email and password rules.
pub open spec fn valid_login(email: Seq<char>, password: Seq<char>) -> bool {
    valid_email(email) && valid_password(password)
}

pub fn validate_login(req: &LoginRequest) -> (r: bool)
    ensures
        r == valid_login(req.email@, req.password@),
{
    check_email(req.email.as_str()) && req.password.as_str().unicode_len() >= 6
}

} // verus!

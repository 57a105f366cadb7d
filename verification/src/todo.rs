//! Item-listing shapes and the caching discipline of the item read
//! path: the query-signature that keys a cached listing, the cache keys
//! and the common prefix their invalidation sweeps, the sort-column
//! whitelist that guards the store against unchecked identifiers, and
//! the ownership guard's path parsing.

use vstd::prelude::*;
use vstd::string::StrSliceExecFns;
use vstd::string::StringExecFns;

use crate::cache::{has_prefix, is_prefix, spec_delete_prefix, CacheStore};

verus! {

/// Seconds a cached item listing lives.
pub const TODO_CACHE_TTL: u64 = 300;

pub struct CreateTodoRequest {
    pub title: String,
    pub description: String,
}

pub struct UpdateTodoRequest {
    pub title: Option<String>,
    pub description: Option<String>,
    pub is_completed: Option<bool>,
}

pub struct UpdateTodoURL {
    pub uuid: String,
}

pub struct GetTodoURL {
    pub uuid: String,
}

pub struct TodoResponse {
    pub uuid: String,
    pub title: String,
    pub description: String,
    pub is_completed: bool,
    pub user_id: String,
    pub created_at: String,
    pub updated_at: String,
}

pub struct TodoResponseList {
    pub todos: Vec<TodoResponse>,
    pub total: i64,
    pub page: i64,
    pub page_size: i64,
    pub total_pages: i64,
}

pub struct PaginationParams {
    pub page: Option<i64>,
    pub page_size: Option<i64>,
}

impl Default for PaginationParams {
    fn default() -> (r: Self)
        ensures
            r.page == Some(1i64),
            r.page_size == Some(10i64),
    {
        PaginationParams { page: Some(1), page_size: Some(10) }
    }
}

pub struct TodoFilter {
    pub search: Option<String>,
    pub is_completed: Option<bool>,
    pub sort_by: Option<String>,
    pub sort_order: Option<String>,
}

impl Default for TodoFilter {
    fn default() -> (r: Self)
        ensures
            r.search is None,
            r.is_completed is None,
            r.sort_by matches Some(s) && s@ == "created_at"@,
            r.sort_order matches Some(s) && s@ == "desc"@,
    {
        TodoFilter {
            search: None,
            is_completed: None,
            sort_by: Some("created_at".to_owned()),
            sort_order: Some("desc".to_owned()),
        }
    }
}

pub struct TodoQueryParams {
    pub pagination: PaginationParams,
    pub filter: TodoFilter,
}

impl Default for TodoQueryParams {
    fn default() -> (r: Self)
        ensures
            r.pagination.page == Some(1i64),
            r.pagination.page_size == Some(10i64),
            r.filter.search is None,
            r.filter.is_completed is None,
            r.filter.sort_by matches Some(s) && s@ == "created_at"@,
            r.filter.sort_order matches Some(s) && s@ == "desc"@,
    {
        TodoQueryParams { pagination: PaginationParams::default(), filter: TodoFilter::default() }
    }
}

pub struct DeleteTodoResponse {
    pub success: bool,
    pub message: String,
    pub todo_id: String,
}

/// A stored item; the timestamps are carried as text.
pub struct Todo {
    pub uuid: String,
    pub title: String,
    pub description: String,
    pub is_completed: bool,
    pub owner_id: String,
    pub created_at: String,
    pub updated_at: String,
}

impl Todo {
    pub fn new(
        uuid: String,
        title: String,
        description: String,
        is_completed: bool,
        owner_id: String,
        created_at: String,
        updated_at: String,
    ) -> (t: Todo)
        ensures
            t.uuid@ == uuid@,
            t.title@ == title@,
            t.description@ == description@,
            t.is_completed == is_completed,
            t.owner_id@ == owner_id@,
            t.created_at@ == created_at@,
            t.updated_at@ == updated_at@,
    {
        Todo { uuid, title, description, is_completed, owner_id, created_at, updated_at }
    }

    /// The response shape of an item, with the owner under `user_id`.
    pub fn into_response(self) -> (r: TodoResponse)
        ensures
            r.uuid@ == self.uuid@,
            r.title@ == self.title@,
            r.description@ == self.description@,
            r.is_completed == self.is_completed,
            r.user_id@ == self.owner_id@,
            r.created_at@ == self.created_at@,
            r.updated_at@ == self.updated_at@,
    {
        TodoResponse {
            uuid: self.uuid,
            title: self.title,
            description: self.description,
            is_completed: self.is_completed,
            user_id: self.owner_id,
            created_at: self.created_at,
            updated_at: self.updated_at,
        }
    }
}

/// The decimal digits of a natural number, most significant first.
pub open spec fn dec_digits(n: nat) -> Seq<char>
    decreases n,
{
    if n < 10 {
        seq![((n + 48) as u8) as char]
    } else {
        dec_digits(n / 10) + seq![((n % 10 + 48) as u8) as char]
    }
}

/// The decimal form of an integer, with a leading minus where needed.
pub open spec fn dec_int(n: int) -> Seq<char> {
    if n < 0 {
        "-"@ + dec_digits((-n) as nat)
    } else {
        dec_digits(n as nat)
    }
}

/// Relies on i64's Display implementation: the decimal form of the
/// value, with a leading minus sign when it is negative.
#[verifier::external_body]
fn i64_to_string(n: i64) -> (r: String)
    ensures
        r@ == dec_int(n as int),
{
    n.to_string()
}

/// The lowercase folding of a text. It depends on the characters
/// alone.
pub uninterp spec fn lower_of(s: Seq<char>) -> Seq<char>;

/// Relies on str::to_lowercase: the Unicode lowercase folding, a
/// function of the characters alone; an already lowercase ASCII text
/// comes back unchanged.
#[verifier::external_body]
fn to_lowercase(s: &str) -> (r: String)
    ensures
        r@ == lower_of(s@),
        s@ == "asc"@ ==> r@ == "asc"@,
        s@ == "desc"@ ==> r@ == "desc"@,
{
    s.to_lowercase()
}

/// The sort column actually used: one of the whitelisted column names,
/// any other identifier falling back to `created_at` rather than
/// reaching the store unchecked.
pub open spec fn spec_sort_column(s: Option<Seq<char>>) -> Seq<char> {
    match s {
        None => "created_at"@,
        Some(v) => if v == "created_at"@ || v == "updated_at"@ || v == "title"@ || v
            == "is_completed"@ {
            v
        } else {
            "created_at"@
        },
    }
}

pub fn normalize_sort_by(sort_by: &Option<String>) -> (r: String)
    ensures
        r@ == spec_sort_column(match sort_by {
            Some(s) => Some(s@),
            None => None,
        }),
{
    match sort_by {
        None => "created_at".to_owned(),
        Some(v) => {
            if *v == "created_at".to_owned() || *v == "updated_at".to_owned() || *v
                == "title".to_owned() || *v == "is_completed".to_owned() {
                v.clone()
            } else {
                "created_at".to_owned()
            }
        },
    }
}

/// The sort direction actually used: ascending exactly when the field
/// folds to `asc`, else descending.
pub open spec fn spec_sort_direction(s: Option<Seq<char>>) -> Seq<char> {
    match s {
        None => "DESC"@,
        Some(v) => if lower_of(v) == "asc"@ {
            "ASC"@
        } else {
            "DESC"@
        },
    }
}

pub fn normalize_sort_order(sort_order: &Option<String>) -> (r: String)
    ensures
        r@ == spec_sort_direction(match sort_order {
            Some(s) => Some(s@),
            None => None,
        }),
{
    match sort_order {
        None => "DESC".to_owned(),
        Some(v) => {
            if to_lowercase(v.as_str()) == "asc".to_owned() {
                "ASC".to_owned()
            } else {
                "DESC".to_owned()
            }
        },
    }
}

/// The signature that keys a cached listing: every parameter that can
/// change the listing's content, with its default where absent.
pub open spec fn spec_query_signature(
    page: int,
    page_size: int,
    search: Seq<char>,
    is_completed: bool,
    sort_by: Seq<char>,
    sort_order: Seq<char>,
) -> Seq<char> {
    "page="@ + dec_int(page) + ";page_size="@ + dec_int(page_size) + ";search="@ + search
        + ";is_completed="@ + (if is_completed {
        "true"@
    } else {
        "false"@
    }) + ";sort_by="@ + sort_by + ";sort_order="@ + sort_order
}

impl TodoQueryParams {
    /// The cache-key signature of this query.
    pub fn signature(&self) -> (r: String)
        ensures
            r@ == spec_query_signature(
                (match self.pagination.page {
                    Some(p) => p,
                    None => 1,
                }) as int,
                (match self.pagination.page_size {
                    Some(p) => p,
                    None => 10,
                }) as int,
                match self.filter.search {
                    Some(s) => s@,
                    None => Seq::<char>::empty(),
                },
                match self.filter.is_completed {
                    Some(b) => b,
                    None => false,
                },
                match self.filter.sort_by {
                    Some(s) => s@,
                    None => "created_at"@,
                },
                match self.filter.sort_order {
                    Some(s) => s@,
                    None => "desc"@,
                },
            ),
    {
        let page = match self.pagination.page {
            Some(p) => p,
            None => 1,
        };
        let page_size = match self.pagination.page_size {
            Some(p) => p,
            None => 10,
        };
        let mut r = "page=".to_owned();
        r.append(i64_to_string(page).as_str());
        r.append(";page_size=");
        r.append(i64_to_string(page_size).as_str());
        r.append(";search=");
        match &self.filter.search {
            Some(s) => {
                r.append(s.as_str());
            },
            None => {},
        }
        r.append(";is_completed=");
        let completed = match self.filter.is_completed {
            Some(b) => b,
            None => false,
        };
        if completed {
            r.append("true");
        } else {
            r.append("false");
        }
        r.append(";sort_by=");
        match &self.filter.sort_by {
            Some(s) => {
                r.append(s.as_str());
            },
            None => {
                r.append("created_at");
            },
        }
        r.append(";sort_order=");
        match &self.filter.sort_order {
            Some(s) => {
                r.append(s.as_str());
            },
            None => {
                r.append("desc");
            },
        }
        proof {
            reveal_strlit("");
            assert(Seq::<char>::empty() =~= ""@);
        }
        r
    }
}

/// The key of a cached listing for one user and query signature.
pub open spec fn todo_list_cache_key(user_id: Seq<char>, sig: Seq<char>) -> Seq<char> {
    "todos:user:"@ + user_id + ":list:"@ + sig
}

pub fn make_todo_list_cache_key(user_id: &str, sig: &str) -> (r: String)
    ensures
        r@ == todo_list_cache_key(user_id@, sig@),
{
    let mut r = "todos:user:".to_owned();
    r.append(user_id);
    r.append(":list:");
    r.append(sig);
    r
}

/// The key of one cached item for one user.
pub open spec fn todo_item_cache_key(user_id: Seq<char>, todo_id: Seq<char>) -> Seq<char> {
    "todos:user:"@ + user_id + ":item:"@ + todo_id
}

pub fn make_todo_item_cache_key(user_id: &str, todo_id: &str) -> (r: String)
    ensures
        r@ == todo_item_cache_key(user_id@, todo_id@),
{
    let mut r = "todos:user:".to_owned();
    r.append(user_id);
    r.append(":item:");
    r.append(todo_id);
    r
}

/// The prefix under which all of one user's cached item views live.
pub open spec fn todo_cache_prefix(user_id: Seq<char>) -> Seq<char> {
    "todos:user:"@ + user_id + ":"@
}

pub fn make_todo_cache_prefix(user_id: &str) -> (r: String)
    ensures
        r@ == todo_cache_prefix(user_id@),
{
    let mut r = "todos:user:".to_owned();
    r.append(user_id);
    r.append(":");
    r
}

/// Invalidates every cached view of one user's items, after any item
/// mutation; the next read misses and recomputes.
pub fn invalidate_user_todos<V: View>(cache: &mut CacheStore<V>, user_id: &str) -> (count: u64)
    requires
        old(cache).wf(),
    ensures
        final(cache).wf(),
        final(cache)@ =~= spec_delete_prefix(old(cache)@, todo_cache_prefix(user_id@)),
        count == old(cache)@.dom().len() - final(cache)@.dom().len(),
{
    let prefix = make_todo_cache_prefix(user_id);
    cache.delete_by_prefix(&prefix)
}

/// Law: the listing keys and the item keys of a user all sit under
/// that user's invalidation prefix, so one sweep of the prefix removes
/// every cached view of the user's items.
pub proof fn lemma_todo_keys_under_prefix(uid: Seq<char>, sig: Seq<char>, tid: Seq<char>)
    ensures
        is_prefix(todo_cache_prefix(uid), todo_list_cache_key(uid, sig)),
        is_prefix(todo_cache_prefix(uid), todo_item_cache_key(uid, tid)),
{
    reveal_strlit("todos:user:");
    reveal_strlit(":list:");
    reveal_strlit(":item:");
    reveal_strlit(":");
    assert(todo_list_cache_key(uid, sig).subrange(
        0,
        todo_cache_prefix(uid).len() as int,
    ) =~= todo_cache_prefix(uid));
    assert(todo_item_cache_key(uid, tid).subrange(
        0,
        todo_cache_prefix(uid).len() as int,
    ) =~= todo_cache_prefix(uid));
}

/// The ownership guard's path parsing: an item id is everything after
/// the items route prefix, where the path carries one.
pub open spec fn spec_extract_todo_id(path: Seq<char>) -> Option<Seq<char>> {
    if path.len() > 14 && path.subrange(0, 14) == "/api/v1/todos/"@ {
        Some(path.subrange(14, path.len() as int))
    } else {
        None
    }
}

pub fn extract_todo_id(path: &str) -> (r: Option<String>)
    ensures
        match r {
            Some(id) => spec_extract_todo_id(path@) == Some(id@),
            None => spec_extract_todo_id(path@) is None,
        },
{
    let n = path.unicode_len();
    let route = "/api/v1/todos/";
    proof {
        reveal_strlit("/api/v1/todos/");
    }
    if n > 14 && has_prefix(path, route) {
        let id = path.substring_char(14, n);
        Some(id.to_owned())
    } else {
        None
    }
}

/// The ownership rule of the item guard: only the item's owner may
/// touch it.
pub fn todo_access_allowed(todo_owner: &String, user_id: &String) -> (r: bool)
    ensures
        r == (todo_owner@ == user_id@),
{
    *todo_owner == *user_id
}

} // verus!

use authcore::cache::CacheStore;
use authcore::todo::{
    extract_todo_id, invalidate_user_todos, make_todo_item_cache_key, make_todo_list_cache_key,
    make_todo_cache_prefix, normalize_sort_by, normalize_sort_order, todo_access_allowed, Todo,
    TodoFilter, TodoQueryParams, PaginationParams,
};

#[test]
fn default_query_signature() {
    let params = TodoQueryParams::default();
    assert_eq!(
        params.signature(),
        "page=1;page_size=10;search=;is_completed=false;sort_by=created_at;sort_order=desc"
    );
}

#[test]
fn full_query_signature() {
    let params = TodoQueryParams {
        pagination: PaginationParams { page: Some(3), page_size: Some(25) },
        filter: TodoFilter {
            search: Some("milk".to_string()),
            is_completed: Some(true),
            sort_by: Some("title".to_string()),
            sort_order: Some("asc".to_string()),
        },
    };
    assert_eq!(
        params.signature(),
        "page=3;page_size=25;search=milk;is_completed=true;sort_by=title;sort_order=asc"
    );
}

#[test]
fn negative_page_is_rendered_with_sign() {
    let params = TodoQueryParams {
        pagination: PaginationParams { page: Some(-2), page_size: None },
        filter: TodoFilter { search: None, is_completed: None, sort_by: None, sort_order: None },
    };
    assert_eq!(
        params.signature(),
        "page=-2;page_size=10;search=;is_completed=false;sort_by=created_at;sort_order=desc"
    );
}

#[test]
fn sort_column_whitelist_falls_back() {
    assert_eq!(normalize_sort_by(&Some("title".to_string())), "title");
    assert_eq!(normalize_sort_by(&Some("updated_at".to_string())), "updated_at");
    assert_eq!(normalize_sort_by(&Some("is_completed".to_string())), "is_completed");
    assert_eq!(normalize_sort_by(&Some("1; DROP TABLE todos".to_string())), "created_at");
    assert_eq!(normalize_sort_by(&None), "created_at");
}

#[test]
fn sort_order_normalizes_case() {
    assert_eq!(normalize_sort_order(&Some("asc".to_string())), "ASC");
    assert_eq!(normalize_sort_order(&Some("ASC".to_string())), "ASC");
    assert_eq!(normalize_sort_order(&Some("desc".to_string())), "DESC");
    assert_eq!(normalize_sort_order(&Some("sideways".to_string())), "DESC");
    assert_eq!(normalize_sort_order(&None), "DESC");
}

#[test]
fn cache_keys_follow_the_convention() {
    assert_eq!(make_todo_list_cache_key("7", "page=1"), "todos:user:7:list:page=1");
    assert_eq!(make_todo_item_cache_key("7", "42"), "todos:user:7:item:42");
    assert_eq!(make_todo_cache_prefix("7"), "todos:user:7:");
}

#[test]
fn invalidation_sweeps_one_users_views() {
    let mut cache: CacheStore<String> = CacheStore::new();
    let now = 1_700_000_000;
    cache.set(&make_todo_list_cache_key("7", "s1"), "l1".to_string(), 300, now);
    cache.set(&make_todo_item_cache_key("7", "a"), "i1".to_string(), 300, now);
    cache.set(&make_todo_list_cache_key("8", "s1"), "keep".to_string(), 300, now);
    let removed = invalidate_user_todos(&mut cache, "7");
    assert_eq!(removed, 2);
    assert!(cache.get(&make_todo_list_cache_key("7", "s1"), now).is_none());
    assert!(cache.get(&make_todo_list_cache_key("8", "s1"), now).is_some());
}

#[test]
fn path_parsing_extracts_item_ids() {
    assert_eq!(extract_todo_id("/api/v1/todos/abc-123"), Some("abc-123".to_string()));
    assert_eq!(extract_todo_id("/api/v1/todos/"), None);
    assert_eq!(extract_todo_id("/api/v1/users/abc"), None);
    assert_eq!(extract_todo_id("/api/v1/todos"), None);
}

#[test]
fn ownership_guard_compares_ids() {
    assert!(todo_access_allowed(&"u1".to_string(), &"u1".to_string()));
    assert!(!todo_access_allowed(&"u1".to_string(), &"u2".to_string()));
}

#[test]
fn todo_into_response_maps_owner_to_user_id() {
    let t = Todo::new(
        "t1".to_string(),
        "Title".to_string(),
        "Desc".to_string(),
        false,
        "owner-9".to_string(),
        "2023-01-01".to_string(),
        "2023-01-02".to_string(),
    );
    let r = t.into_response();
    assert_eq!(r.user_id, "owner-9");
    assert_eq!(r.uuid, "t1");
    assert!(!r.is_completed);
}

#[test]
fn filter_defaults_sort_newest_first() {
    let f = TodoFilter::default();
    assert_eq!(f.sort_by.as_deref(), Some("created_at"));
    assert_eq!(f.sort_order.as_deref(), Some("desc"));
    let p = PaginationParams::default();
    assert_eq!(p.page, Some(1));
    assert_eq!(p.page_size, Some(10));
}

//! The response envelope the HTTP layer serves, its concrete
//! instantiations, and the health-check shape.

use vstd::prelude::*;

use crate::todo::{DeleteTodoResponse, TodoResponse, TodoResponseList};

verus! {

/// The uniform envelope around every item-path payload.
#[verifier::reject_recursive_types(T)]
pub struct ApiResponse<T> {
    pub success: bool,
    pub message: String,
    pub data: Option<T>,
}

pub struct ApiResponseTodoResponse {
    pub success: bool,
    pub message: String,
    pub data: Option<TodoResponse>,
}

pub struct ApiResponseTodoResponseList {
    pub success: bool,
    pub message: String,
    pub data: Option<TodoResponseList>,
}

pub struct ApiResponseDeleteTodoResponse {
    pub success: bool,
    pub message: String,
    pub data: Option<DeleteTodoResponse>,
}

pub struct ApiResponseHealthResponse {
    pub success: bool,
    pub message: String,
    pub data: Option<HealthResponse>,
}

pub struct ApiResponseEmpty {
    pub success: bool,
    pub message: String,
    pub data: Option<()>,
}

/// What the health endpoint reports of the process and its stores.
pub struct HealthResponse {
    pub status: String,
    pub version: String,
    pub timestamp: u64,
    pub database: String,
    pub redis: String,
}

/// Root of the served API description.
pub struct ApiDoc;

} // verus!

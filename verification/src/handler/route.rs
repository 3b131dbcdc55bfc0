//! Routes: what a create request asks for.

use vstd::prelude::*;

use crate::db::queries::route::NewRoute;
use crate::text::{concat2, concat3, join_lines, join_with_newlines, string_views};
use crate::utils::api_response::{ApiError, ApiErrorKind};
use crate::utils::ids::new_id;
use super::project::{field_errors_result, result_view};

verus! {

/// The path prefix of a route whose request names none: the whole site.
pub fn default_path_prefix() -> (s: String)
    ensures
        s@ == "/"@,
{
    String::from_str("/")
}

/// A request to route a domain (and path prefix) to a project.
#[derive(Debug)]
pub struct CreateRouteRequest {
    pub project_id: String,
    pub domain: String,
    pub path_prefix: String,
}

/// The lines describing each empty field of a create request, in the order
/// the fields are declared.
pub open spec fn route_field_errors(b: CreateRouteRequest) -> Seq<Seq<char>> {
    (if b.project_id@.len() == 0 {
        seq!["project_id: project_id must not be empty"@]
    } else {
        Seq::empty()
    }) + (if b.domain@.len() == 0 {
        seq!["domain: domain must not be empty"@]
    } else {
        Seq::empty()
    })
}

/// The range checks of a create request: a project and a domain.
pub fn validate_create_route(body: &CreateRouteRequest) -> (r: Result<(), ApiError>)
    ensures
        result_view(r) == field_errors_result(route_field_errors(*body)),
{
    let mut lines: Vec<String> = Vec::new();
    if body.project_id.as_str().is_empty() {
        lines.push(String::from_str("project_id: project_id must not be empty"));
    }
    let ghost first = string_views(lines@);
    if body.domain.as_str().is_empty() {
        lines.push(String::from_str("domain: domain must not be empty"));
    }
    assert(string_views(lines@) =~= route_field_errors(*body));
    if lines.len() == 0 {
        Ok(())
    } else {
        Err(ApiError::bad_request(join_with_newlines(&lines)))
    }
}

/// The row a create request inserts, under the identifier `id`.
pub fn route_row(body: &CreateRouteRequest, id: String) -> (r: NewRoute)
    ensures
        r.id == id,
        r.project_id@ == body.project_id@,
        r.domain@ == body.domain@,
        r.path_prefix@ == body.path_prefix@,
{
    NewRoute {
        id,
        project_id: body.project_id.clone(),
        domain: body.domain.clone(),
        path_prefix: body.path_prefix.clone(),
    }
}

/// The row a create request inserts, under a fresh identifier of 36
/// characters; an internal error when no identifier could be drawn.
pub fn new_route(body: &CreateRouteRequest) -> (r: Result<NewRoute, ApiError>)
    ensures
        match r {
            Ok(row) => row.id@.len() == 36 && row.project_id@ == body.project_id@
                && row.domain@ == body.domain@ && row.path_prefix@ == body.path_prefix@,
            Err(e) => e.spec_view() == (ApiErrorKind::Internal, "failed to generate a fresh identifier"@),
        },
{
    match new_id() {
        Some(id) => Ok(route_row(body, id)),
        None => Err(ApiError::internal(String::from_str("failed to generate a fresh identifier"))),
    }
}

/// The message when the project already serves that domain and prefix.
pub fn route_exists_error(domain: &str, path_prefix: &str) -> (e: ApiError)
    ensures
        e.spec_view() == (ApiErrorKind::Conflict, "project is already linked to "@ + domain@
            + path_prefix@),
{
    ApiError::conflict(concat3("project is already linked to ", domain, path_prefix))
}

/// The message when no route has that identifier.
pub fn route_not_found(id: &str) -> (e: ApiError)
    ensures
        e.spec_view() == (ApiErrorKind::NotFound, "route "@ + id@ + " not found"@),
{
    ApiError::not_found(concat3("route ", id, " not found"))
}

/// The error when a route disappears right after it is created.
pub fn route_vanished_error(id: &str) -> (e: ApiError)
    ensures
        e.spec_view() == (ApiErrorKind::Internal, "route "@ + id@ + " vanished after create"@),
{
    ApiError::internal(concat3("route ", id, " vanished after create"))
}

} // verus!

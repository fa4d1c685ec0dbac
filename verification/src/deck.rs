//! The board feature module: its payload shapes, its layered error
//! type, and the explicit two-phase decode of its responses.
//!
//! A board endpoint answers either with the success shape (a bare array
//! or object) or with a typed error body `{status, message}`; the two
//! are told apart structurally, success tried first, never by HTTP
//! status code.

use vstd::prelude::*;
use crate::error::NextcloudApiError;
use crate::json::{
    Json, JsonV, FromJson, jget, json_parse, parse_json, field_str, field_u32, field_bool,
    field_u64, field_usize, field_i64,
};
use crate::client::{
    NextcloudApiClient, ApiRequest, HttpMethod, request_wf, resolves, default_headers,
    header_view,
};
use crate::query::enc_query;
use vstd::string::StringSliceAdditionalSpecFns;

verus! {

broadcast use vstd::seq::group_seq_axioms, vstd::std_specs::vec::group_vec_axioms;

/// The typed error body a board endpoint returns in place of a payload.
#[derive(Debug, Clone, PartialEq)]
pub struct DeckApiErrorResponse {
    pub status: u32,
    pub message: String,
}

impl FromJson for DeckApiErrorResponse {
    open spec fn json_shape_ok(j: JsonV) -> bool {
        &&& field_u32(j, "status"@) is Some
        &&& field_str(j, "message"@) is Some
    }

    open spec fn matches_json(&self, j: JsonV) -> bool {
        &&& field_u32(j, "status"@) == Some(self.status)
        &&& field_str(j, "message"@) == Some(self.message@)
    }

    fn from_json(j: &Json) -> (r: Result<Self, NextcloudApiError>) {
        let status = j.get_u32("status");
        let message = j.get_string("message");
        match (status, message) {
            (Some(status), Some(message)) => Ok(DeckApiErrorResponse { status, message }),
            _ => Err(NextcloudApiError::SerdeError("not an error body".to_owned())),
        }
    }
}

/// An error in the board-feature context: either a failure of the
/// request core, embedded whole, or a typed error the feature's server
/// side reported. Nothing is discarded in either embedding.
#[derive(Debug, Clone, PartialEq)]
pub enum DeckApiError {
    LowerError(NextcloudApiError),
    DeckError(DeckApiErrorResponse),
}

impl From<NextcloudApiError> for DeckApiError {
    /// Embeds a core error, losing nothing.
    fn from(e: NextcloudApiError) -> (r: Self) {
        DeckApiError::LowerError(e)
    }
}

impl vstd::std_specs::convert::FromSpecImpl<NextcloudApiError> for DeckApiError {
    open spec fn obeys_from_spec() -> bool {
        true
    }

    open spec fn from_spec(e: NextcloudApiError) -> Self {
        DeckApiError::LowerError(e)
    }
}

impl From<DeckApiErrorResponse> for DeckApiError {
    /// Embeds a typed feature error body, losing nothing.
    fn from(e: DeckApiErrorResponse) -> (r: Self) {
        DeckApiError::DeckError(e)
    }
}

impl vstd::std_specs::convert::FromSpecImpl<DeckApiErrorResponse> for DeckApiError {
    open spec fn obeys_from_spec() -> bool {
        true
    }

    open spec fn from_spec(e: DeckApiErrorResponse) -> Self {
        DeckApiError::DeckError(e)
    }
}

/// The embedding of core errors into the feature error type is lossless:
/// distinct core errors stay distinct, and the embedded value carries
/// the core error unchanged.
pub proof fn lemma_error_wrapping_lossless(e1: NextcloudApiError, e2: NextcloudApiError)
    ensures
        DeckApiError::LowerError(e1)->LowerError_0 == e1,
        DeckApiError::LowerError(e1) == DeckApiError::LowerError(e2) ==> e1 == e2,
{
}

/// What a board endpoint's body decodes to: the error shape or the
/// success shape, told apart at decode time.
#[derive(Debug, Clone, PartialEq)]
pub enum DeckApiResult<T> {
    DeckApiError(DeckApiErrorResponse),
    DeckApiOk(T),
}

impl<T: FromJson> DeckApiResult<T> {
    /// The explicit two-phase decode: the success shape is attempted
    /// first; only a tree that is no success is read as the error
    /// shape; a tree that is neither is a decode failure.
    pub fn decode(j: &Json) -> (r: Result<DeckApiResult<T>, NextcloudApiError>)
        ensures
            T::json_shape_ok(j@) ==> (r matches Ok(DeckApiResult::DeckApiOk(t))
                && t.matches_json(j@)),
            !T::json_shape_ok(j@) && DeckApiErrorResponse::json_shape_ok(j@)
                ==> (r matches Ok(DeckApiResult::DeckApiError(e)) && e.matches_json(j@)),
            !T::json_shape_ok(j@) && !DeckApiErrorResponse::json_shape_ok(j@)
                ==> (r matches Err(e) && e is SerdeError),
    {
        match T::from_json(j) {
            Ok(t) => Ok(DeckApiResult::DeckApiOk(t)),
            Err(_) => match DeckApiErrorResponse::from_json(j) {
                Ok(e) => Ok(DeckApiResult::DeckApiError(e)),
                Err(e2) => Err(e2),
            },
        }
    }

    /// Projects a decoded tagged result into a plain result, embedding
    /// an error body into the feature error type.
    pub fn into_result(self) -> (r: Result<T, DeckApiError>)
        ensures
            self matches DeckApiResult::DeckApiOk(t) ==> r == Ok::<T, DeckApiError>(t),
            self matches DeckApiResult::DeckApiError(e)
                ==> r == Err::<T, DeckApiError>(DeckApiError::DeckError(e)),
    {
        match self {
            DeckApiResult::DeckApiOk(t) => Ok(t),
            DeckApiResult::DeckApiError(e) => Err(DeckApiError::DeckError(e)),
        }
    }
}

/// A label on a board.
#[derive(Debug, Clone, PartialEq)]
pub struct Label {
    pub id: i64,
    pub title: String,
    pub color: String,
}

impl FromJson for Label {
    open spec fn json_shape_ok(j: JsonV) -> bool {
        &&& field_i64(j, "id"@) is Some
        &&& field_str(j, "title"@) is Some
        &&& field_str(j, "color"@) is Some
    }

    open spec fn matches_json(&self, j: JsonV) -> bool {
        &&& field_i64(j, "id"@) == Some(self.id)
        &&& field_str(j, "title"@) == Some(self.title@)
        &&& field_str(j, "color"@) == Some(self.color@)
    }

    fn from_json(j: &Json) -> (r: Result<Self, NextcloudApiError>) {
        let id = j.get_i64("id");
        let title = j.get_string("title");
        let color = j.get_string("color");
        match (id, title, color) {
            (Some(id), Some(title), Some(color)) => Ok(Label { id, title, color }),
            _ => Err(NextcloudApiError::SerdeError("malformed label".to_owned())),
        }
    }
}

/// The caller's permissions on a board.
#[derive(Debug, Clone, PartialEq)]
pub struct Permissions {
    pub permission_edit: bool,
    pub permission_manage: bool,
    pub permission_read: bool,
    pub permission_share: bool,
}

impl FromJson for Permissions {
    open spec fn json_shape_ok(j: JsonV) -> bool {
        &&& field_bool(j, "PERMISSION_EDIT"@) is Some
        &&& field_bool(j, "PERMISSION_MANAGE"@) is Some
        &&& field_bool(j, "PERMISSION_READ"@) is Some
        &&& field_bool(j, "PERMISSION_SHARE"@) is Some
    }

    open spec fn matches_json(&self, j: JsonV) -> bool {
        &&& field_bool(j, "PERMISSION_EDIT"@) == Some(self.permission_edit)
        &&& field_bool(j, "PERMISSION_MANAGE"@) == Some(self.permission_manage)
        &&& field_bool(j, "PERMISSION_READ"@) == Some(self.permission_read)
        &&& field_bool(j, "PERMISSION_SHARE"@) == Some(self.permission_share)
    }

    fn from_json(j: &Json) -> (r: Result<Self, NextcloudApiError>) {
        let edit = j.get_bool("PERMISSION_EDIT");
        let manage = j.get_bool("PERMISSION_MANAGE");
        let read = j.get_bool("PERMISSION_READ");
        let share = j.get_bool("PERMISSION_SHARE");
        match (edit, manage, read, share) {
            (Some(permission_edit), Some(permission_manage), Some(permission_read), Some(
                permission_share,
            )) => Ok(
                Permissions { permission_edit, permission_manage, permission_read, permission_share },
            ),
            _ => Err(NextcloudApiError::SerdeError("malformed permissions".to_owned())),
        }
    }
}

/// One board, as the listing endpoint reports it. Fields the feature
/// does not interpret stay JSON trees.
#[derive(Debug, Clone)]
pub struct Board {
    pub title: String,
    pub owner: Json,
    pub color: String,
    pub archived: bool,
    pub labels: Vec<Label>,
    pub acl: Vec<Json>,
    pub permissions: Permissions,
    pub users: Vec<Json>,
    pub shared: usize,
    pub deleted_at: usize,
    pub id: u64,
    pub last_modified: u64,
    pub settings: Json,
}

impl FromJson for Board {
    open spec fn json_shape_ok(j: JsonV) -> bool {
        &&& field_str(j, "title"@) is Some
        &&& jget(j, "owner"@) is Some
        &&& field_str(j, "color"@) is Some
        &&& field_bool(j, "archived"@) is Some
        &&& jget(j, "labels"@) matches Some(l) && <Vec<Label> as FromJson>::json_shape_ok(l)
        &&& jget(j, "acl"@) matches Some(a) && a is Arr
        &&& jget(j, "permissions"@) matches Some(p) && Permissions::json_shape_ok(p)
        &&& jget(j, "users"@) matches Some(u) && u is Arr
        &&& field_usize(j, "shared"@) is Some
        &&& field_usize(j, "deletedAt"@) is Some
        &&& field_u64(j, "id"@) is Some
        &&& field_u64(j, "lastModified"@) is Some
        &&& jget(j, "settings"@) is Some
    }

    open spec fn matches_json(&self, j: JsonV) -> bool {
        &&& field_str(j, "title"@) == Some(self.title@)
        &&& jget(j, "owner"@) == Some(self.owner@)
        &&& field_str(j, "color"@) == Some(self.color@)
        &&& field_bool(j, "archived"@) == Some(self.archived)
        &&& jget(j, "labels"@) matches Some(l) && self.labels.matches_json(l)
        &&& jget(j, "acl"@) matches Some(a) && self.acl.matches_json(a)
        &&& jget(j, "permissions"@) matches Some(p) && self.permissions.matches_json(p)
        &&& jget(j, "users"@) matches Some(u) && self.users.matches_json(u)
        &&& field_usize(j, "shared"@) == Some(self.shared)
        &&& field_usize(j, "deletedAt"@) == Some(self.deleted_at)
        &&& field_u64(j, "id"@) == Some(self.id)
        &&& field_u64(j, "lastModified"@) == Some(self.last_modified)
        &&& jget(j, "settings"@) == Some(self.settings@)
    }

    fn from_json(j: &Json) -> (r: Result<Self, NextcloudApiError>) {
        let title = j.get_string("title");
        let owner_field = j.get("owner");
        let color = j.get_string("color");
        let archived = j.get_bool("archived");
        let labels_field = j.get("labels");
        let acl_field = j.get("acl");
        let permissions_field = j.get("permissions");
        let users_field = j.get("users");
        let shared = j.get_usize("shared");
        let deleted_at = j.get_usize("deletedAt");
        let id = j.get_u64("id");
        let last_modified = j.get_u64("lastModified");
        let settings_field = j.get("settings");
        match (title, owner_field, color, archived, shared, deleted_at, id, last_modified,
            settings_field) {
            (Some(title), Some(owner_json), Some(color), Some(archived), Some(shared), Some(
                deleted_at,
            ), Some(id), Some(last_modified), Some(settings_json)) => {
                match (labels_field, acl_field, permissions_field, users_field) {
                    (Some(lj), Some(aj), Some(pj), Some(uj)) => {
                        let labels = <Vec<Label> as FromJson>::from_json(lj);
                        let acl = <Vec<Json> as FromJson>::from_json(aj);
                        let permissions = Permissions::from_json(pj);
                        let users = <Vec<Json> as FromJson>::from_json(uj);
                        match (labels, acl, permissions, users) {
                            (Ok(labels), Ok(acl), Ok(permissions), Ok(users)) => Ok(
                                Board {
                                    title,
                                    owner: owner_json.clone(),
                                    color,
                                    archived,
                                    labels,
                                    acl,
                                    permissions,
                                    users,
                                    shared,
                                    deleted_at,
                                    id,
                                    last_modified,
                                    settings: settings_json.clone(),
                                },
                            ),
                            _ => Err(
                                NextcloudApiError::SerdeError("malformed board".to_owned()),
                            ),
                        }
                    },
                    _ => Err(NextcloudApiError::SerdeError("malformed board".to_owned())),
                }
            },
            _ => Err(NextcloudApiError::SerdeError("malformed board".to_owned())),
        }
    }
}

impl NextcloudApiClient {
    /// The request that lists the boards: a GET carrying only the
    /// default headers and no body; with `details` the listing
    /// endpoint's boolean flag is sent as the query pair
    /// `("details", "true")`.
    pub fn boards(&self, details: bool) -> (r: Result<ApiRequest, DeckApiError>)
        ensures
            r is Ok <==> resolves(self.url@, "index.php/apps/deck/api/v1.0/boards"@),
            r is Ok ==> request_wf(
                r->Ok_0,
                *self,
                HttpMethod::Get,
                "index.php/apps/deck/api/v1.0/boards"@,
            )
                && header_view(r->Ok_0.headers@) == default_headers()
                && r->Ok_0.body is None,
            r is Ok && details ==> (r->Ok_0.query matches Some(enc)
                && enc@ == enc_query(seq![("details".spec_bytes(), "true".spec_bytes())])),
            r is Ok && !details ==> r->Ok_0.query is None,
            r is Err ==> (r->Err_0 matches DeckApiError::LowerError(e) && e is InvalidUrl),
    {
        let path = "index.php/apps/deck/api/v1.0/boards";
        let outcome = if details {
            let mut q: Vec<(Vec<u8>, Vec<u8>)> = Vec::new();
            q.push(("details".as_bytes_vec(), "true".as_bytes_vec()));
            proof {
                assert(crate::query::pairs_view(q@)
                    =~= seq![("details".spec_bytes(), "true".spec_bytes())]);
            }
            self.api_get_ext(path, None, Some(&q))
        } else {
            self.api_get_ext(path, None, None)
        };
        match outcome {
            Ok(req) => Ok(req),
            Err(e) => Err(DeckApiError::LowerError(e)),
        }
    }
}

/// Decodes a board-listing body: success shape first, then the typed
/// error shape, else a decode failure; every failure carried as the
/// feature's error type without loss.
pub fn decode_boards(body: &str) -> (r: Result<Vec<Board>, DeckApiError>)
    ensures
        json_parse(body@) is None ==> (r matches Err(DeckApiError::LowerError(e))
            && e is SerdeError),
        json_parse(body@) matches Some(jv) ==> {
            &&& <Vec<Board> as FromJson>::json_shape_ok(jv)
                ==> (r matches Ok(bs) && bs.matches_json(jv))
            &&& !<Vec<Board> as FromJson>::json_shape_ok(jv)
                && DeckApiErrorResponse::json_shape_ok(jv)
                ==> (r matches Err(DeckApiError::DeckError(e)) && e.matches_json(jv))
            &&& !<Vec<Board> as FromJson>::json_shape_ok(jv)
                && !DeckApiErrorResponse::json_shape_ok(jv)
                ==> (r matches Err(DeckApiError::LowerError(e)) && e is SerdeError)
        },
{
    match parse_json(body) {
        Ok(j) => {
            match DeckApiResult::<Vec<Board>>::decode(&j) {
                Ok(tagged) => tagged.into_result(),
                Err(e) => Err(DeckApiError::LowerError(e)),
            }
        },
        Err(m) => Err(DeckApiError::LowerError(NextcloudApiError::SerdeError(m))),
    }
}

} // verus!

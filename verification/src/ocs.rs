//! The classic OCS response shapes and the two decode modes.
//!
//! A classic OCS body wraps everything in an `ocs` root holding `meta`
//! and `data`; other endpoints return the payload bare. [`ocs_decode`]
//! strips the root first, [`api_decode`] does not; the two modes stay
//! independently selectable.

use vstd::prelude::*;
use vstd::string::StringExecFns;
use crate::error::NextcloudApiError;
use crate::json::{
    Json, JsonV, FromJson, jget, jstr, jview_seq, lemma_jview_seq, json_parse, parse_json,
    field_str, field_u32, field_bool,
};
use crate::client::{
    NextcloudApiClient, ApiRequest, HttpMethod, request_wf, resolves, default_headers,
    header_view,
};

verus! {

broadcast use vstd::seq::group_seq_axioms, vstd::std_specs::vec::group_vec_axioms;

impl FromJson for String {
    /// A bare JSON string.
    open spec fn json_shape_ok(j: JsonV) -> bool {
        j is Str
    }

    open spec fn matches_json(&self, j: JsonV) -> bool {
        jstr(j) == Some(self@)
    }

    fn from_json(j: &Json) -> (r: Result<Self, NextcloudApiError>) {
        match j.as_str() {
            Some(s) => Ok(s.clone()),
            None => Err(NextcloudApiError::SerdeError("expected a string".to_owned())),
        }
    }
}

impl<T: FromJson> FromJson for Vec<T> {
    /// An array whose every element decodes as `T`.
    open spec fn json_shape_ok(j: JsonV) -> bool {
        j is Arr && forall|i: int| 0 <= i < j->Arr_0.len()
            ==> T::json_shape_ok(j->Arr_0[i])
    }

    open spec fn matches_json(&self, j: JsonV) -> bool {
        j is Arr && self@.len() == j->Arr_0.len()
            && forall|i: int| 0 <= i < self@.len()
                ==> self@[i].matches_json(j->Arr_0[i])
    }

    #[verifier::loop_isolation(false)]
    fn from_json(j: &Json) -> (r: Result<Self, NextcloudApiError>) {
        broadcast use lemma_jview_seq;

        match j.as_array() {
            Some(elems) => {
                let ghost arr = j@->Arr_0;
                let mut out: Vec<T> = Vec::new();
                let mut i: usize = 0;
                while i < elems.len()
                    invariant
                        i <= elems.len(),
                        out@.len() == i,
                        forall|k: int| 0 <= k < i ==> T::json_shape_ok(arr[k]),
                        forall|k: int| 0 <= k < i ==> out@[k].matches_json(arr[k]),
                    decreases elems.len() - i,
                {
                    match T::from_json(&elems[i]) {
                        Ok(t) => {
                            out.push(t);
                        },
                        Err(e) => {
                            proof {
                                assert(arr[i as int] == elems@[i as int]@);
                                assert(!T::json_shape_ok(arr[i as int]));
                            }
                            return Err(e);
                        },
                    }
                    i = i + 1;
                }
                Ok(out)
            },
            None => Err(NextcloudApiError::SerdeError("expected an array".to_owned())),
        }
    }
}

/// Meta information that is part of every classic OCS response.
#[derive(Debug, Clone, PartialEq)]
pub struct ApiResponseMeta {
    pub status: String,
    pub statuscode: u32,
    pub message: String,
    pub totalitems: String,
    pub itemsperpage: String,
}

impl FromJson for ApiResponseMeta {
    open spec fn json_shape_ok(j: JsonV) -> bool {
        &&& field_str(j, "status"@) is Some
        &&& field_u32(j, "statuscode"@) is Some
        &&& field_str(j, "message"@) is Some
        &&& field_str(j, "totalitems"@) is Some
        &&& field_str(j, "itemsperpage"@) is Some
    }

    open spec fn matches_json(&self, j: JsonV) -> bool {
        &&& field_str(j, "status"@) == Some(self.status@)
        &&& field_u32(j, "statuscode"@) == Some(self.statuscode)
        &&& field_str(j, "message"@) == Some(self.message@)
        &&& field_str(j, "totalitems"@) == Some(self.totalitems@)
        &&& field_str(j, "itemsperpage"@) == Some(self.itemsperpage@)
    }

    fn from_json(j: &Json) -> (r: Result<Self, NextcloudApiError>) {
        let status = j.get_string("status");
        let statuscode = j.get_u32("statuscode");
        let message = j.get_string("message");
        let totalitems = j.get_string("totalitems");
        let itemsperpage = j.get_string("itemsperpage");
        match (status, statuscode, message, totalitems, itemsperpage) {
            (Some(status), Some(statuscode), Some(message), Some(totalitems), Some(
                itemsperpage,
            )) => Ok(
                ApiResponseMeta { status, statuscode, message, totalitems, itemsperpage },
            ),
            _ => Err(NextcloudApiError::SerdeError("malformed ocs meta".to_owned())),
        }
    }
}

/// Overall classic OCS response structure: `meta` beside the typed `data`.
#[derive(Debug, Clone, PartialEq)]
pub struct ApiResponse<D> {
    pub meta: ApiResponseMeta,
    pub data: D,
}

impl<D: FromJson> FromJson for ApiResponse<D> {
    open spec fn json_shape_ok(j: JsonV) -> bool {
        &&& jget(j, "meta"@) matches Some(m) && ApiResponseMeta::json_shape_ok(m)
        &&& jget(j, "data"@) matches Some(d) && D::json_shape_ok(d)
    }

    open spec fn matches_json(&self, j: JsonV) -> bool {
        &&& jget(j, "meta"@) matches Some(m) && self.meta.matches_json(m)
        &&& jget(j, "data"@) matches Some(d) && self.data.matches_json(d)
    }

    fn from_json(j: &Json) -> (r: Result<Self, NextcloudApiError>) {
        let meta_field = j.get("meta");
        let data_field = j.get("data");
        match (meta_field, data_field) {
            (Some(m), Some(d)) => {
                match (ApiResponseMeta::from_json(m), D::from_json(d)) {
                    (Ok(meta), Ok(data)) => Ok(ApiResponse { meta, data }),
                    (Err(e), _) => Err(e),
                    (_, Err(e)) => Err(e),
                }
            },
            _ => Err(NextcloudApiError::SerdeError("malformed ocs response".to_owned())),
        }
    }
}

/// The server's version block inside the capabilities payload.
#[derive(Debug, Clone, PartialEq)]
pub struct VersionData {
    pub major: u32,
    pub minor: u32,
    pub micro: u32,
    pub string: String,
    pub edition: String,
    pub extended_support: bool,
}

impl FromJson for VersionData {
    open spec fn json_shape_ok(j: JsonV) -> bool {
        &&& field_u32(j, "major"@) is Some
        &&& field_u32(j, "minor"@) is Some
        &&& field_u32(j, "micro"@) is Some
        &&& field_str(j, "string"@) is Some
        &&& field_str(j, "edition"@) is Some
        &&& field_bool(j, "extendedSupport"@) is Some
    }

    open spec fn matches_json(&self, j: JsonV) -> bool {
        &&& field_u32(j, "major"@) == Some(self.major)
        &&& field_u32(j, "minor"@) == Some(self.minor)
        &&& field_u32(j, "micro"@) == Some(self.micro)
        &&& field_str(j, "string"@) == Some(self.string@)
        &&& field_str(j, "edition"@) == Some(self.edition@)
        &&& field_bool(j, "extendedSupport"@) == Some(self.extended_support)
    }

    fn from_json(j: &Json) -> (r: Result<Self, NextcloudApiError>) {
        let major = j.get_u32("major");
        let minor = j.get_u32("minor");
        let micro = j.get_u32("micro");
        let string = j.get_string("string");
        let edition = j.get_string("edition");
        let extended_support = j.get_bool("extendedSupport");
        match (major, minor, micro, string, edition, extended_support) {
            (Some(major), Some(minor), Some(micro), Some(string), Some(edition), Some(
                extended_support,
            )) => Ok(VersionData { major, minor, micro, string, edition, extended_support }),
            _ => Err(NextcloudApiError::SerdeError("malformed version data".to_owned())),
        }
    }
}

/// The capabilities payload: the version block and the capability
/// mapping, kept as the JSON object the server sent.
#[derive(Debug, Clone)]
pub struct CapabilityData {
    pub version: VersionData,
    pub capabilities: Json,
}

impl FromJson for CapabilityData {
    open spec fn json_shape_ok(j: JsonV) -> bool {
        &&& jget(j, "version"@) matches Some(v) && VersionData::json_shape_ok(v)
        &&& jget(j, "capabilities"@) matches Some(c) && c is Obj
    }

    open spec fn matches_json(&self, j: JsonV) -> bool {
        &&& jget(j, "version"@) matches Some(v) && self.version.matches_json(v)
        &&& jget(j, "capabilities"@) == Some(self.capabilities@)
    }

    fn from_json(j: &Json) -> (r: Result<Self, NextcloudApiError>) {
        let version_field = j.get("version");
        let caps_field = j.get("capabilities");
        match (version_field, caps_field) {
            (Some(v), Some(c)) => {
                let is_obj = match c {
                    Json::Obj(_) => true,
                    _ => false,
                };
                if is_obj {
                    match VersionData::from_json(v) {
                        Ok(version) => Ok(
                            CapabilityData { version, capabilities: c.clone() },
                        ),
                        Err(e) => Err(e),
                    }
                } else {
                    Err(NextcloudApiError::SerdeError("malformed capabilities".to_owned()))
                }
            },
            _ => Err(NextcloudApiError::SerdeError("malformed capabilities".to_owned())),
        }
    }
}

impl CapabilityData {
    /// Typed projection out of the capability mapping: the value under
    /// `key`, decoded as `T`. Absent keys give the missing-capability
    /// error; a present value of the wrong shape is a decode failure.
    pub fn get_capabilities<T: FromJson>(&self, key: &str) -> (r: Result<T, NextcloudApiError>)
        ensures
            match jget(self.capabilities@, key@) {
                Some(f) => {
                    &&& T::json_shape_ok(f) <==> r is Ok
                    &&& r is Ok ==> r->Ok_0.matches_json(f)
                    &&& r is Err ==> r->Err_0 is SerdeError
                },
                None => r matches Err(NextcloudApiError::MissingCapabilityError),
            },
    {
        match self.capabilities.get(key) {
            Some(f) => T::from_json(f),
            None => Err(NextcloudApiError::MissingCapabilityError),
        }
    }
}

/// The list of all user identifiers.
#[derive(Debug, Clone, PartialEq)]
pub struct UserList {
    pub users: Vec<String>,
}

impl FromJson for UserList {
    open spec fn json_shape_ok(j: JsonV) -> bool {
        jget(j, "users"@) matches Some(u) && <Vec<String> as FromJson>::json_shape_ok(u)
    }

    open spec fn matches_json(&self, j: JsonV) -> bool {
        jget(j, "users"@) matches Some(u) && self.users.matches_json(u)
    }

    fn from_json(j: &Json) -> (r: Result<Self, NextcloudApiError>) {
        match j.get("users") {
            Some(u) => match <Vec<String> as FromJson>::from_json(u) {
                Ok(users) => Ok(UserList { users }),
                Err(e) => Err(e),
            },
            None => Err(NextcloudApiError::SerdeError("malformed user list".to_owned())),
        }
    }
}

/// Raw decode mode: the body parsed and decoded directly into `T`.
pub fn api_decode<T: FromJson>(body: &str) -> (r: Result<T, NextcloudApiError>)
    ensures
        json_parse(body@) is None ==> (r matches Err(e) && e is SerdeError),
        json_parse(body@) matches Some(jv) ==> {
            &&& r is Ok <==> T::json_shape_ok(jv)
            &&& r is Ok ==> r->Ok_0.matches_json(jv)
            &&& r is Err ==> r->Err_0 is SerdeError
        },
{
    match parse_json(body) {
        Ok(j) => T::from_json(&j),
        Err(m) => Err(NextcloudApiError::SerdeError(m)),
    }
}

/// Enveloped decode mode: the body parsed, the `ocs` root stripped, the
/// inner tree decoded into `T`. A body without the root is a decode
/// failure.
pub fn ocs_decode<T: FromJson>(body: &str) -> (r: Result<T, NextcloudApiError>)
    ensures
        json_parse(body@) is None ==> (r matches Err(e) && e is SerdeError),
        json_parse(body@) matches Some(jv) ==> {
            &&& jget(jv, "ocs"@) is None ==> (r matches Err(e) && e is SerdeError)
            &&& jget(jv, "ocs"@) matches Some(inner) ==> {
                &&& r is Ok <==> T::json_shape_ok(inner)
                &&& r is Ok ==> r->Ok_0.matches_json(inner)
                &&& r is Err ==> r->Err_0 is SerdeError
            }
        },
{
    match parse_json(body) {
        Ok(j) => match j.get("ocs") {
            Some(inner) => T::from_json(inner),
            None => Err(NextcloudApiError::SerdeError("missing ocs root".to_owned())),
        },
        Err(m) => Err(NextcloudApiError::SerdeError(m)),
    }
}

impl NextcloudApiClient {
    /// The request that fetches the server's capabilities.
    pub fn capabilities(&self) -> (r: Result<ApiRequest, NextcloudApiError>)
        ensures
            r is Ok <==> resolves(self.url@, "/ocs/v1.php/cloud/capabilities"@),
            r is Ok ==> request_wf(r->Ok_0, *self, HttpMethod::Get, "/ocs/v1.php/cloud/capabilities"@)
                && header_view(r->Ok_0.headers@) == default_headers()
                && r->Ok_0.query is None
                && r->Ok_0.body is None,
            r is Err ==> r->Err_0 is InvalidUrl,
    {
        self.api_get("/ocs/v1.php/cloud/capabilities")
    }

    /// The request that fetches the metadata of one user.
    pub fn user_metadata(&self, user_id: &str) -> (r: Result<ApiRequest, NextcloudApiError>)
        ensures
            r is Ok <==> resolves(self.url@, "/ocs/v1.php/cloud/users/"@ + user_id@),
            r is Ok ==> request_wf(
                r->Ok_0,
                *self,
                HttpMethod::Get,
                "/ocs/v1.php/cloud/users/"@ + user_id@,
            )
                && header_view(r->Ok_0.headers@) == default_headers()
                && r->Ok_0.query is None
                && r->Ok_0.body is None,
            r is Err ==> r->Err_0 is InvalidUrl,
    {
        let mut path: String = "/ocs/v1.php/cloud/users/".to_owned();
        path.append(user_id);
        self.api_get(path.as_str())
    }

    /// The request that fetches the metadata of the API user itself.
    pub fn own_metadata(&self) -> (r: Result<ApiRequest, NextcloudApiError>)
        ensures
            r is Ok <==> resolves(
                self.url@,
                "/ocs/v1.php/cloud/users/"@ + self.credentials.user@,
            ),
            r is Ok ==> request_wf(
                r->Ok_0,
                *self,
                HttpMethod::Get,
                "/ocs/v1.php/cloud/users/"@ + self.credentials.user@,
            )
                && header_view(r->Ok_0.headers@) == default_headers()
                && r->Ok_0.query is None
                && r->Ok_0.body is None,
            r is Err ==> r->Err_0 is InvalidUrl,
    {
        let user = self.credentials.user.clone();
        self.user_metadata(user.as_str())
    }

    /// The request that fetches the list of all users.
    pub fn users(&self) -> (r: Result<ApiRequest, NextcloudApiError>)
        ensures
            r is Ok <==> resolves(self.url@, "/ocs/v1.php/cloud/users"@),
            r is Ok ==> request_wf(r->Ok_0, *self, HttpMethod::Get, "/ocs/v1.php/cloud/users"@)
                && header_view(r->Ok_0.headers@) == default_headers()
                && r->Ok_0.query is None
                && r->Ok_0.body is None,
            r is Err ==> r->Err_0 is InvalidUrl,
    {
        self.api_get("/ocs/v1.php/cloud/users")
    }
}

} // verus!

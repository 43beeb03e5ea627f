//! Errors and responses of the bridge's HTTP interface.
use vstd::prelude::*;
use vstd::string::StringExecFns;
use crate::json::{Json, JsonValue, member, members_of, obj};
use crate::reconcile::{text_member, text_of};
use crate::resource::{ResourceIdentifier, ResourceType, kind_of_tag, tag_of};

verus! {

/// Possible errors related to communication with the Hue Bridge.
#[derive(Clone, Debug, PartialEq)]
pub enum HueAPIError {
    BadRequest,
    BadResponse,
    BadDeserialize,
    NotFound,
    HueBridgeError(String),
    ServerSentEvent,
    Streaming,
}

#[derive(Clone, Debug, PartialEq)]
pub struct RegisterErrorPayload {
    pub error_type: u16,
    pub address: String,
    pub description: String,
}

#[derive(Clone, Debug, PartialEq)]
pub enum RegisterResponse {
    Success { success: RegisterSuccessPayload },
    Error { error: RegisterErrorPayload },
}

#[derive(Clone, Debug, PartialEq)]
pub struct RegisterSuccessPayload {
    pub username: String,
    pub clientkey: String,
}

#[derive(Clone, Debug, PartialEq)]
pub enum UnregisterResponse {
    Success(String),
    Error(String),
}

/// The protol used by the Hue Bridge, currently only [`Version::V2`] is supported.
#[derive(Clone, Copy, Debug, PartialEq, Eq, Hash, Structural)]
pub enum Version {
    V1,
    V2,
}

/// What a reply of the bridge yields: its data when it reports no error,
/// the first error's description when it reports one, and `BadResponse`
/// when it holds neither.
pub fn response_data(errors: &Vec<String>, data: Option<JsonValue>) -> (r: Result<JsonValue, HueAPIError>)
    ensures
        errors.len() == 0 && data is Some ==> r is Ok && r->Ok_0@ == data.unwrap()@,
        errors.len() > 0 ==> r is Err && r->Err_0 is HueBridgeError && r->Err_0->HueBridgeError_0@
            == errors[0]@,
        errors.len() == 0 && data is None ==> r == Err::<JsonValue, HueAPIError>(HueAPIError::BadResponse),
{
    if errors.len() > 0 {
        Err(HueAPIError::HueBridgeError(errors[0].clone()))
    } else {
        match data {
            Some(d) => Ok(d),
            None => Err(HueAPIError::BadResponse),
        }
    }
}

/// The first item of a reply that lists resources; `NotFound` when it
/// lists none.
pub fn first_or_not_found<T>(items: Vec<T>) -> (r: Result<T, HueAPIError>)
    ensures
        items.len() > 0 ==> r == Ok::<T, HueAPIError>(items[0]),
        items.len() == 0 ==> r == Err::<T, HueAPIError>(HueAPIError::NotFound),
{
    let mut items = items;
    if items.len() == 0 {
        Err(HueAPIError::NotFound)
    } else {
        Ok(items.remove(0))
    }
}

/// The identifier that a document of the form `{"rid": .., "rtype": ..}` holds.
pub open spec fn identifier_of(j: Json) -> Option<(ResourceType, Seq<char>)> {
    match text_of(member(members_of(j), "rid"@)) {
        Some(rid) => match text_of(member(members_of(j), "rtype"@)) {
            Some(t) => match kind_of_tag(t) {
                Some(k) => Some((k, rid)),
                None => None,
            },
            None => None,
        },
        None => None,
    }
}

/// The identifiers that a list of documents holds, if each holds one.
pub open spec fn identifiers_of(items: Seq<Json>) -> Option<Seq<(ResourceType, Seq<char>)>>
    decreases items.len(),
{
    if items.len() == 0 {
        Some(Seq::empty())
    } else {
        match identifiers_of(items.drop_last()) {
            Some(rest) => match identifier_of(items.last()) {
                Some(x) => Some(rest.push(x)),
                None => None,
            },
            None => None,
        }
    }
}

/// Reads the identifiers that a write or a deletion reports; a reply of
/// another shape is `BadDeserialize`.
pub fn identifiers_from_json(data: &JsonValue) -> (r: Result<Vec<ResourceIdentifier>, HueAPIError>)
    ensures
        match data@ {
            Json::Array(items) => match identifiers_of(items) {
                Some(ids) => r is Ok && crate::reconcile::ids_view(r->Ok_0@) == ids,
                None => r == Err::<Vec<ResourceIdentifier>, HueAPIError>(HueAPIError::BadDeserialize),
            },
            _ => r == Err::<Vec<ResourceIdentifier>, HueAPIError>(HueAPIError::BadDeserialize),
        },
{
    match data {
        JsonValue::Array(items) => {
            proof {
                crate::json::lemma_array_view(*items);
            }
            let ghost docs = Seq::new(items.len() as nat, |i: int| items[i]@);
            let mut out: Vec<ResourceIdentifier> = Vec::new();
            let mut i: usize = 0;
            while i < items.len()
                invariant
                    i <= items.len(),
                    docs == Seq::new(items.len() as nat, |j: int| items[j]@),
                    data@ == Json::Array(docs),
                    identifiers_of(docs.take(i as int)) == Some(crate::reconcile::ids_view(out@)),
                decreases items.len() - i,
            {
                assert(docs.take(i + 1).drop_last() =~= docs.take(i as int));
                let ghost before = out@;
                let rid = text_member(&items[i], "rid");
                let rtype = text_member(&items[i], "rtype");
                match (rid, rtype) {
                    (Some(rid), Some(t)) => match ResourceType::from_tag(t.as_str()) {
                        Some(k) => {
                            out.push(ResourceIdentifier { rid, rtype: k });
                            assert(crate::reconcile::ids_view(out@) =~= crate::reconcile::ids_view(before).push(
                                (k, out@.last().rid@),
                            ));
                        },
                        None => {
                            assert(identifiers_of(docs.take(i + 1)) is None);
                            proof {
                                lemma_identifiers_prefix(docs, i as int + 1);
                            }
                            return Err(HueAPIError::BadDeserialize);
                        },
                    },
                    _ => {
                        assert(identifiers_of(docs.take(i + 1)) is None);
                        proof {
                            lemma_identifiers_prefix(docs, i as int + 1);
                        }
                        return Err(HueAPIError::BadDeserialize);
                    },
                }
                i += 1;
            }
            assert(docs.take(i as int) =~= docs);
            Ok(out)
        },
        _ => Err(HueAPIError::BadDeserialize),
    }
}

/// A list whose prefix holds a document without an identifier holds none either.
proof fn lemma_identifiers_prefix(docs: Seq<Json>, n: int)
    requires
        0 <= n <= docs.len(),
        identifiers_of(docs.take(n)) is None,
    ensures
        identifiers_of(docs) is None,
    decreases docs.len() - n,
{
    if n < docs.len() {
        assert(docs.take(n + 1).drop_last() =~= docs.take(n));
        lemma_identifiers_prefix(docs, n + 1);
    } else {
        assert(docs.take(n) =~= docs);
    }
}

/// The path of a kind's resources, or of one resource when `id` is given.
pub fn resource_path(kind: ResourceType, id: Option<&str>) -> (r: String)
    ensures
        r@ == "/resource/"@ + tag_of(kind) + match id {
            Some(i) => "/"@ + i@,
            None => Seq::<char>::empty(),
        },
{
    let mut s = "/resource/".to_owned();
    s.append(kind.tag());
    match id {
        Some(i) => {
            let ghost before = s@;
            s.append("/");
            s.append(i);
            assert(s@ =~= before + ("/"@ + i@));
        },
        None => {
            assert(s@ =~= s@ + Seq::<char>::empty());
        },
    }
    s
}

/// The text `app_name#instance_name` that names a new app.
pub open spec fn device_type(app_name: Seq<char>, instance_name: Seq<char>) -> Seq<char> {
    app_name + "#"@ + instance_name
}

/// The request that registers a new app and asks for a client key.
pub fn register_body(app_name: &str, instance_name: &str) -> (r: JsonValue)
    ensures
        r@ == obj(
            seq![
                ("devicetype"@, Json::Str(device_type(app_name@, instance_name@))),
                ("generateclientkey"@, Json::Bool(true)),
            ],
        ),
{
    let mut t = app_name.to_owned();
    t.append("#");
    t.append(instance_name);
    JsonValue::object2("devicetype", JsonValue::Str(t), "generateclientkey", JsonValue::Bool(true))
}

/// What a registration yields: the first reply decides, a success gives
/// the new credentials and an error its description.
pub fn register_outcome(replies: &Vec<RegisterResponse>) -> (r: Result<RegisterSuccessPayload, HueAPIError>)
    ensures
        replies.len() == 0 ==> r is Err && r->Err_0 is HueBridgeError,
        replies.len() > 0 ==> match replies[0] {
            RegisterResponse::Success { success } => r is Ok && r->Ok_0.username@ == success.username@
                && r->Ok_0.clientkey@ == success.clientkey@,
            RegisterResponse::Error { error } => r is Err && r->Err_0 is HueBridgeError
                && r->Err_0->HueBridgeError_0@ == error.description@,
        },
{
    if replies.len() == 0 {
        return Err(HueAPIError::HueBridgeError("received no events".to_owned()));
    }
    match &replies[0] {
        RegisterResponse::Success { success } => Ok(
            RegisterSuccessPayload { username: success.username.clone(), clientkey: success.clientkey.clone() },
        ),
        RegisterResponse::Error { error } => Err(HueAPIError::HueBridgeError(error.description.clone())),
    }
}

/// What removing an app yields: the first reply decides; no reply at all
/// is `BadResponse`.
pub fn unregister_outcome(replies: &Vec<UnregisterResponse>) -> (r: Result<(), HueAPIError>)
    ensures
        replies.len() == 0 ==> r == Err::<(), HueAPIError>(HueAPIError::BadResponse),
        replies.len() > 0 ==> match replies[0] {
            UnregisterResponse::Success(_) => r is Ok,
            UnregisterResponse::Error(m) => r is Err && r->Err_0 is HueBridgeError && r->Err_0->HueBridgeError_0@
                == m@,
        },
{
    if replies.len() == 0 {
        return Err(HueAPIError::BadResponse);
    }
    match &replies[0] {
        UnregisterResponse::Success(_) => Ok(()),
        UnregisterResponse::Error(m) => Err(HueAPIError::HueBridgeError(m.clone())),
    }
}

} // verus!

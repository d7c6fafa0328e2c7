//! The exposed operations, up to the point where the network client takes
//! over: each decodes its arguments in order and stops at the first one that
//! fails, before anything is sent.

use crate::marshal::{decode, decode_optional, decode_optional_spec, decode_spec, raw_view, text_view};
use crate::protocol::{BoundaryError, ErrorKind};
use vstd::prelude::*;
use vstd::utf8::{decode_utf8, valid_utf8};

verus! {

/// Whether this build talks to a simulated network rather than the real one.
pub const MOCK_NETWORK: bool = false;

/// The decoded arguments of an authorisation request.
pub struct AuthAppRequest {
    pub app_id: String,
    pub app_name: String,
    pub app_vendor: String,
    pub endpoint: Option<String>,
}

/// The decoded arguments of a connection request.
pub struct ConnectAppRequest {
    pub app_id: String,
    pub auth_credentials: Option<String>,
}

/// The decoded texts of an authorisation request, or the kind of the first
/// argument that failed.
pub open spec fn auth_app_spec(
    app_id: Option<Seq<u8>>,
    app_name: Option<Seq<u8>>,
    app_vendor: Option<Seq<u8>>,
    endpoint: Option<Seq<u8>>,
) -> Result<(Seq<char>, Seq<char>, Seq<char>, Option<Seq<char>>), ErrorKind> {
    match decode_spec(app_id) {
        Err(k) => Err(k),
        Ok(id) => match decode_spec(app_name) {
            Err(k) => Err(k),
            Ok(name) => match decode_spec(app_vendor) {
                Err(k) => Err(k),
                Ok(vendor) => Ok((id, name, vendor, decode_optional_spec(endpoint))),
            },
        },
    }
}

/// The decoded texts of a connection request, or the kind of the failure.
pub open spec fn connect_app_spec(
    app_id: Option<Seq<u8>>,
    auth_credentials: Option<Seq<u8>>,
) -> Result<(Seq<char>, Option<Seq<char>>), ErrorKind> {
    match decode_spec(app_id) {
        Err(k) => Err(k),
        Ok(id) => Ok((id, decode_optional_spec(auth_credentials))),
    }
}

/// Decodes the arguments of an authorisation request: the application's id,
/// name and vendor are required, the endpoint is optional.
pub fn auth_app(
    app_id: Option<Vec<u8>>,
    app_name: Option<Vec<u8>>,
    app_vendor: Option<Vec<u8>>,
    endpoint: Option<Vec<u8>>,
) -> (r: Result<AuthAppRequest, BoundaryError>)
    ensures
        match r {
            Ok(q) => auth_app_spec(
                raw_view(app_id),
                raw_view(app_name),
                raw_view(app_vendor),
                raw_view(endpoint),
            ) == Ok::<_, ErrorKind>(
                (q.app_id@, q.app_name@, q.app_vendor@, text_view(q.endpoint)),
            ),
            Err(e) => auth_app_spec(
                raw_view(app_id),
                raw_view(app_name),
                raw_view(app_vendor),
                raw_view(endpoint),
            ) == Err::<(Seq<char>, Seq<char>, Seq<char>, Option<Seq<char>>), ErrorKind>(e.kind),
        },
{
    let app_id = match decode(app_id) {
        Ok(s) => s,
        Err(e) => return Err(e),
    };
    let app_name = match decode(app_name) {
        Ok(s) => s,
        Err(e) => return Err(e),
    };
    let app_vendor = match decode(app_vendor) {
        Ok(s) => s,
        Err(e) => return Err(e),
    };
    let endpoint = decode_optional(endpoint);
    Ok(AuthAppRequest { app_id, app_name, app_vendor, endpoint })
}

/// Decodes the arguments of a connection request: the application's id is
/// required, the credentials are optional.
pub fn connect_app(app_id: Option<Vec<u8>>, auth_credentials: Option<Vec<u8>>) -> (r: Result<
    ConnectAppRequest,
    BoundaryError,
>)
    ensures
        match r {
            Ok(q) => connect_app_spec(raw_view(app_id), raw_view(auth_credentials)) == Ok::<
                _,
                ErrorKind,
            >((q.app_id@, text_view(q.auth_credentials))),
            Err(e) => connect_app_spec(raw_view(app_id), raw_view(auth_credentials)) == Err::<
                (Seq<char>, Option<Seq<char>>),
                ErrorKind,
            >(e.kind),
        },
{
    let app_id = match decode(app_id) {
        Ok(s) => s,
        Err(e) => return Err(e),
    };
    let auth_credentials = decode_optional(auth_credentials);
    Ok(ConnectAppRequest { app_id, auth_credentials })
}

/// Decodes the new directory of the settings file.
pub fn app_set_config_dir_path(new_path: Option<Vec<u8>>) -> (r: Result<String, BoundaryError>)
    ensures
        match r {
            Ok(s) => decode_spec(raw_view(new_path)) == Ok::<Seq<char>, ErrorKind>(s@),
            Err(e) => decode_spec(raw_view(new_path)) == Err::<Seq<char>, ErrorKind>(e.kind),
        },
{
    decode(new_path)
}

/// Whether this build targets a simulated network.
pub fn app_is_mock() -> (r: bool)
    ensures
        r == MOCK_NETWORK,
{
    MOCK_NETWORK
}

/// An authorisation request whose three required arguments are valid text
/// proceeds, with those texts, whatever the endpoint holds.
pub proof fn lemma_valid_auth_request_proceeds(
    app_id: Seq<u8>,
    app_name: Seq<u8>,
    app_vendor: Seq<u8>,
    endpoint: Option<Seq<u8>>,
)
    requires
        valid_utf8(app_id),
        valid_utf8(app_name),
        valid_utf8(app_vendor),
    ensures
        auth_app_spec(Some(app_id), Some(app_name), Some(app_vendor), endpoint) == Ok::<
            _,
            ErrorKind,
        >(
            (
                decode_utf8(app_id),
                decode_utf8(app_name),
                decode_utf8(app_vendor),
                decode_optional_spec(endpoint),
            ),
        ),
{
}

/// An application id that is not valid text stops an authorisation request
/// with `InvalidUtf8`, before any request is formed.
pub proof fn lemma_invalid_app_id_rejected(
    app_id: Seq<u8>,
    app_name: Option<Seq<u8>>,
    app_vendor: Option<Seq<u8>>,
    endpoint: Option<Seq<u8>>,
)
    requires
        !valid_utf8(app_id),
    ensures
        auth_app_spec(Some(app_id), app_name, app_vendor, endpoint) == Err::<
            (Seq<char>, Seq<char>, Seq<char>, Option<Seq<char>>),
            ErrorKind,
        >(ErrorKind::InvalidUtf8),
{
}

/// A null endpoint is no error: the request proceeds with no endpoint. A null
/// application id is an error of kind `NullInput`.
pub proof fn lemma_null_arguments(
    app_id: Option<Seq<u8>>,
    app_name: Option<Seq<u8>>,
    app_vendor: Option<Seq<u8>>,
    endpoint: Option<Seq<u8>>,
)
    ensures
        auth_app_spec(None, app_name, app_vendor, endpoint) == Err::<
            (Seq<char>, Seq<char>, Seq<char>, Option<Seq<char>>),
            ErrorKind,
        >(ErrorKind::NullInput),
        auth_app_spec(app_id, app_name, app_vendor, endpoint) is Ok ==> (auth_app_spec(
            app_id,
            app_name,
            app_vendor,
            None,
        ) matches Ok(q) && q.3 is None),
{
}

} // verus!

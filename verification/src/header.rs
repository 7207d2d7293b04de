//! Composition of the fixed authorization header that accompanies every
//! request, derived from the session's identity fields.

use vstd::prelude::*;

verus! {

/// The value of the `x-emby-authorization` header for the given identity
/// fields, at the specification level.
pub open spec fn spec_emby_authorization(
    user_id: Seq<char>,
    client: Seq<char>,
    device: Seq<char>,
    device_id: Seq<char>,
    version: Seq<char>,
) -> Seq<char> {
    "Emby UserId="@ + user_id + ",Client="@ + client + ",Device="@ + device + ",DeviceId="@
        + device_id + ",Version="@ + version
}

/// Builds the `x-emby-authorization` header value carried by every request:
/// the five identity directives in fixed order.
pub fn generate_emby_authorization(
    user_id: &str,
    client: &str,
    device: &str,
    device_id: &str,
    version: &str,
) -> (r: String)
    ensures
        r@ == spec_emby_authorization(user_id@, client@, device@, device_id@, version@),
{
    let mut r = String::from_str("Emby UserId=");
    r.append(user_id);
    r.append(",Client=");
    r.append(client);
    r.append(",Device=");
    r.append(device);
    r.append(",DeviceId=");
    r.append(device_id);
    r.append(",Version=");
    r.append(version);
    r
}

} // verus!

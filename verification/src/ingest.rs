//! What the ingest side is configured with: which settings name a stream, and
//! the description of the pipeline that turns a camera's feed into frames.
//!
//! The pipeline itself runs outside this library and hands each encoded frame
//! to [`crate::registry::Registry::publish`].

use vstd::prelude::*;
use crate::text::starts_with;

verus! {

/// The start of every setting that belongs to the relay.
pub const STREAM_PREFIX: &'static str = "CCTV_";

/// The start of the settings that hold credentials, not streams.
pub const CREDENTIAL_PREFIX: &'static str = "CCTV_CRED_";

/// The description up to the address of the source.
pub const SOURCE_OPEN: &'static str = "rtspsrc location=";

/// From the address to the user.
pub const SOURCE_USER: &'static str = " user-id=";

/// From the user to the password.
pub const SOURCE_PASSWORD: &'static str = " user-pw=";

/// The elements after the source: decode, scale to 640 by 360, encode as
/// JPEG, and hand each image to the sink named `sink`.
pub const SOURCE_CHAIN: &'static str =
    " ! decodebin ! videoconvert ! videoscale ! video/x-raw,width=640,height=360 ! jpegenc quality=70 ! appsink name=sink emit-signals=true sync=false";

/// Whether a setting named `key` configures a stream.
pub open spec fn names_stream(key: Seq<char>) -> bool {
    STREAM_PREFIX@.is_prefix_of(key) && !CREDENTIAL_PREFIX@.is_prefix_of(key)
}

/// The pipeline description for the source at `url`, read as `user` with
/// `password`.
pub open spec fn pipeline_text(url: Seq<char>, user: Seq<char>, password: Seq<char>) -> Seq<char> {
    SOURCE_OPEN@ + url + SOURCE_USER@ + user + SOURCE_PASSWORD@ + password + SOURCE_CHAIN@
}

/// Whether the setting named `key` configures a stream: it starts with the
/// relay's prefix and is not one of the credential settings.
pub fn is_stream_key(key: &str) -> (is_stream: bool)
    ensures
        is_stream == names_stream(key@),
{
    starts_with(key, STREAM_PREFIX) && !starts_with(key, CREDENTIAL_PREFIX)
}

/// The description of the pipeline that reads the source at `url` with the
/// given credentials and produces one JPEG image per frame.
pub fn pipeline_description(url: &str, user: &str, password: &str) -> (description: String)
    ensures
        description@ == pipeline_text(url@, user@, password@),
{
    let mut description = String::from_str(SOURCE_OPEN);
    description.append(url);
    description.append(SOURCE_USER);
    description.append(user);
    description.append(SOURCE_PASSWORD);
    description.append(password);
    description.append(SOURCE_CHAIN);
    description
}

} // verus!

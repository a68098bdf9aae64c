//! Metadata of gRPC exports.

use crate::ordered::StringMap;
use crate::otel::config::OpenTelemetryError;
use vstd::prelude::*;
use vstd::string::*;

verus! {

/// The metadata of a gRPC call, as `tonic` has it.
#[verifier::external_type_specification]
#[verifier::external_body]
pub struct ExMetadataMap(tonic::metadata::MetadataMap);

pub type MetadataEntries = Map<Seq<char>, Seq<char>>;

/// The text that a metadata map holds at each key.
pub uninterp spec fn metadata_entries(map: tonic::metadata::MetadataMap) -> MetadataEntries;

/// The metadata key that a text writes, or what is wrong with it in words.
pub uninterp spec fn grpc_key(text: Seq<char>) -> Result<Seq<char>, Seq<char>>;

/// What is wrong with a text as a metadata value, in words.
pub uninterp spec fn grpc_value_error(text: Seq<char>) -> Option<Seq<char>>;

/// `MetadataKey::<Ascii>::from_bytes` on the bytes of a text, and the key it makes as text. The result is
/// named `grpc_key`.
#[verifier::external_body]
fn metadata_key(text: &str) -> (r: Result<String, String>)
    ensures
        match r {
            Ok(key) => grpc_key(text@) == Ok::<Seq<char>, Seq<char>>(key@),
            Err(error) => grpc_key(text@) == Err::<Seq<char>, Seq<char>>(error@),
        },
{
    tonic::metadata::AsciiMetadataKey::from_bytes(text.as_bytes())
        .map(|key| key.as_str().to_owned())
        .map_err(|error| error.to_string())
}

/// `MetadataValue::<Ascii>::try_from` a text: the value it makes holds that text, or there is an error,
/// named `grpc_value_error`.
#[verifier::external_body]
fn metadata_value(text: &str) -> (r: Result<(), String>)
    ensures
        match r {
            Ok(_) => grpc_value_error(text@) is None,
            Err(error) => grpc_value_error(text@) == Some(error@),
        },
{
    tonic::metadata::AsciiMetadataValue::try_from(text).map(|_| ()).map_err(|error| error.to_string())
}

/// `MetadataMap::new`: no metadata.
#[verifier::external_body]
fn no_metadata() -> (r: tonic::metadata::MetadataMap)
    ensures
        metadata_entries(r) == MetadataEntries::empty(),
{
    tonic::metadata::MetadataMap::new()
}

/// `MetadataMap::insert`: the key has this one value, whatever it had. It panics on a key or value that
/// is not one, and when the map would grow beyond what it can hold; with at most 6553 keys in it, it does
/// not.
#[verifier::external_body]
fn put_metadata(map: &mut tonic::metadata::MetadataMap, key: &str, value: &str)
    requires
        grpc_key(key@) is Ok,
        grpc_value_error(value@) is None,
        metadata_entries(*old(map)).dom().len() <= 6553,
    ensures
        metadata_entries(*final(map)) == metadata_entries(*old(map)).insert(grpc_key(key@)->Ok_0, value@),
{
    let key = tonic::metadata::AsciiMetadataKey::from_bytes(key.as_bytes()).expect("a metadata key");
    let value = tonic::metadata::AsciiMetadataValue::try_from(value).expect("a metadata value");
    map.insert(key, value);
}

/// What is wrong with a header as metadata.
pub open spec fn header_error(key: Seq<char>, value: Seq<char>) -> Option<Seq<char>> {
    match grpc_key(key) {
        Err(error) => Some(error),
        Ok(_) => grpc_value_error(value),
    }
}

/// The metadata of the first `n` headers: nothing where one of them is wrong.
pub open spec fn metadata_of(headers: Seq<(Seq<char>, Seq<char>)>, n: int) -> Option<MetadataEntries>
    decreases n,
{
    if n <= 0 {
        Some(MetadataEntries::empty())
    } else {
        match metadata_of(headers, n - 1) {
            None => None,
            Some(entries) => if header_error(headers[n - 1].0, headers[n - 1].1) is Some {
                None
            } else {
                Some(entries.insert(grpc_key(headers[n - 1].0)->Ok_0, headers[n - 1].1))
            },
        }
    }
}

/// The metadata of a gRPC export: the headers, or the first of them that is none.
pub fn build_grpc_metadata(headers: &StringMap<String>) -> (r: Result<tonic::metadata::MetadataMap, OpenTelemetryError>)
    requires
        headers.view().len() <= 6554,
    ensures
        match r {
            Ok(map) => metadata_of(headers.view(), headers.view().len() as int) == Some(metadata_entries(map)),
            Err(OpenTelemetryError::InvalidGrpcHeader { key, message }) => exists|i: int|
                0 <= i < headers.view().len() && metadata_of(headers.view(), i) is Some && (
                #[trigger] headers.view()[i]).0 == key@ && header_error(key@, headers.view()[i].1) == Some(message@),
            Err(_) => false,
        },
{
    let mut metadata = no_metadata();
    let mut i: usize = 0;
    while i < headers.len()
        invariant
            i <= headers.view().len() <= 6554,
            metadata_of(headers.view(), i as int) == Some(metadata_entries(metadata)),
            metadata_entries(metadata).dom().finite(),
            metadata_entries(metadata).dom().len() <= i,
        decreases headers.view().len() - i,
    {
        let key = headers.key_at(i);
        let value = headers.value_at(i).as_str();
        if let Err(message) = metadata_key(key) {
            assert(headers.view()[i as int].0 == key@);
            return Err(OpenTelemetryError::InvalidGrpcHeader { key: key.to_owned(), message });
        }
        if let Err(message) = metadata_value(value) {
            assert(headers.view()[i as int].0 == key@);
            return Err(OpenTelemetryError::InvalidGrpcHeader { key: key.to_owned(), message });
        }
        put_metadata(&mut metadata, key, value);
        i += 1;
    }
    Ok(metadata)
}

} // verus!

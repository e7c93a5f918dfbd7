//! Messages and the codecs that turn their payloads into bytes and back.
use vstd::prelude::*;
use crate::errors::InfraResult;

verus! {

/// Supported serialization formats for message payloads.
#[derive(Debug, Clone, Copy, PartialEq, Eq, Structural)]
pub enum SerializationFormat {
    Json,
    Avro,
    Protobuf,
}

/// A message to publish: an optional key, a payload and ordered headers.
#[derive(Debug, Clone)]
pub struct KafkaMessage<T> {
    pub key: Option<String>,
    pub value: T,
    pub headers: Vec<(String, String)>,
}

impl<T> KafkaMessage<T> {
    /// A message with no key and no headers.
    pub fn new(value: T) -> (r: Self)
        ensures
            r.key is None,
            r.value == value,
            r.headers@.len() == 0,
    {
        KafkaMessage { key: None, value, headers: Vec::new() }
    }

    /// The same message with its key set to `key`.
    pub fn with_key(self, key: String) -> (r: Self)
        ensures
            r.key == Some(key),
            r.value == self.value,
            r.headers@ == self.headers@,
    {
        let mut m = self;
        m.key = Some(key);
        m
    }

    /// The same message with the header `(key, value)` appended.
    pub fn with_header(self, key: String, value: String) -> (r: Self)
        ensures
            r.key == self.key,
            r.value == self.value,
            r.headers@ == self.headers@.push((key, value)),
    {
        let mut m = self;
        m.headers.push((key, value));
        m
    }
}

/// Turns a payload into bytes.
pub trait MessageSerializer<T> {
    fn serialize(&self, message: &T) -> InfraResult<Vec<u8>>;
}

/// Turns bytes back into a payload.
pub trait MessageDeserializer<T> {
    fn deserialize(&self, bytes: &[u8]) -> InfraResult<T>;
}

} // verus!

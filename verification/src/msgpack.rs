//! Errors of MessagePack (de)serialization of diagnostic structs, and the
//! decoding interface those structs offer.

use vstd::prelude::*;

verus! {

/// Error of MessagePack encoding or decoding, with the codec's message.
pub enum MsgpackError {
    Encode(String),
    Decode(String),
}

/// The human-readable message of an error.
pub open spec fn msgpack_error_text(kind_is_encode: bool, detail: Seq<char>) -> Seq<char> {
    if kind_is_encode {
        "msgpack encode error: "@ + detail
    } else {
        "msgpack decode error: "@ + detail
    }
}

impl MsgpackError {
    /// The message: `msgpack encode error: <detail>` or
    /// `msgpack decode error: <detail>`.
    pub fn message(&self) -> (s: String)
        ensures
            s@ == match self {
                MsgpackError::Encode(d) => msgpack_error_text(true, d@),
                MsgpackError::Decode(d) => msgpack_error_text(false, d@),
            },
    {
        let mut s: String = String::new();
        match self {
            MsgpackError::Encode(d) => {
                s.append("msgpack encode error: ");
                s.append(d.as_str());
            },
            MsgpackError::Decode(d) => {
                s.append("msgpack decode error: ");
                s.append(d.as_str());
            },
        }
        s
    }
}

/// Decoding a value from MessagePack bytes.
pub trait FromMsgpack: Sized {
    /// Decodes `Self` from MessagePack bytes.
    fn from_msgpack(bytes: &[u8]) -> Result<Self, MsgpackError>;
}

} // verus!

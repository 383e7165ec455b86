use vstd::prelude::*;
use crate::ident::{StoreKey, decode_key, encode_key, is_key_text, key_bytes_of, hex_text};

verus! {

/// The error categories of the repository, independent of the store's own error type.
#[derive(Clone, Debug, PartialEq, Eq)]
pub enum ErrorKind {
    /// An invalid argument was provided.
    InvalidArgument { message: String },
    /// A document could not be put into the store's encoding.
    Serialization { cause: String },
    /// The store rejected the operation or could not be reached.
    Storage { cause: String },
}

/// The error of every repository operation.
#[derive(Clone, Debug, PartialEq, Eq)]
pub struct Error {
    pub kind: ErrorKind,
}

/// The message carried by the error for a malformed identifier.
pub open spec fn invalid_id_message() -> Seq<char> {
    "Invalid Id"@
}

/// The error for a malformed identifier.
pub open spec fn is_invalid_id_error(e: Error) -> bool {
    &&& e.kind is InvalidArgument
    &&& e.kind->InvalidArgument_message@ == invalid_id_message()
}

impl Error {
    pub fn new(kind: ErrorKind) -> (r: Error)
        ensures
            r.kind == kind,
    {
        Error { kind }
    }

    pub fn invalid_argument(message: &str) -> (r: Error)
        ensures
            r.kind is InvalidArgument,
            r.kind->InvalidArgument_message@ == message@,
    {
        Error::new(ErrorKind::InvalidArgument { message: message.to_owned() })
    }
}

/// Decodes an identifier before any storage operation; malformed text is an
/// `InvalidArgument` error.
pub fn string_to_object_id(id: &str) -> (r: Result<StoreKey, Error>)
    ensures
        r is Ok <==> is_key_text(id@),
        r matches Ok(k) ==> k.bytes@ == key_bytes_of(id@),
        r matches Err(e) ==> is_invalid_id_error(e),
{
    match decode_key(id) {
        Some(key) => Ok(key),
        None => Err(Error::invalid_argument("Invalid Id")),
    }
}

/// The outcome of an insert: the identifier text of the key the store assigned,
/// or the store's failure.
pub fn create_result(inserted: Result<StoreKey, String>) -> (r: Result<String, Error>)
    ensures
        inserted matches Ok(k) ==> r matches Ok(id) && id@ == hex_text(k.bytes@),
        inserted matches Err(c) ==> r == Err::<String, Error>(
            Error { kind: ErrorKind::Storage { cause: c } },
        ),
{
    match inserted {
        Ok(key) => Ok(encode_key(&key)),
        Err(cause) => Err(Error::new(ErrorKind::Storage { cause })),
    }
}

/// The outcome of a filtered read: what the store returned, in its order, or
/// nothing when the read failed (a failed read is not reported).
pub fn find_result<T>(found: Result<Vec<T>, String>) -> (r: Vec<T>)
    ensures
        found matches Ok(v) ==> r@ == v@,
        found is Err ==> r@.len() == 0,
{
    match found {
        Ok(v) => v,
        Err(_) => Vec::new(),
    }
}

/// The outcome of a read by key: an absent document is `None`, not an error.
pub fn find_one_result<T>(looked_up: Result<Option<T>, String>) -> (r: Result<Option<T>, Error>)
    ensures
        looked_up matches Ok(d) ==> r == Ok::<Option<T>, Error>(d),
        looked_up matches Err(c) ==> r == Err::<Option<T>, Error>(
            Error { kind: ErrorKind::Storage { cause: c } },
        ),
{
    match looked_up {
        Ok(d) => Ok(d),
        Err(cause) => Err(Error::new(ErrorKind::Storage { cause })),
    }
}

/// The outcome of encoding a document for a write.
pub fn serialization_result<D>(encoded: Result<D, String>) -> (r: Result<D, Error>)
    ensures
        encoded matches Ok(d) ==> r == Ok::<D, Error>(d),
        encoded matches Err(c) ==> r == Err::<D, Error>(
            Error { kind: ErrorKind::Serialization { cause: c } },
        ),
{
    match encoded {
        Ok(d) => Ok(d),
        Err(cause) => Err(Error::new(ErrorKind::Serialization { cause })),
    }
}

/// The outcome of a write by key: success whether or not a document matched,
/// since the write is followed by a read, or the store's failure.
pub fn write_result(written: Result<bool, String>) -> (r: Result<(), Error>)
    ensures
        written is Ok ==> r is Ok,
        written matches Err(c) ==> r == Err::<(), Error>(
            Error { kind: ErrorKind::Storage { cause: c } },
        ),
{
    match written {
        Ok(_) => Ok(()),
        Err(cause) => Err(Error::new(ErrorKind::Storage { cause })),
    }
}

/// The outcome of a delete by key, given how many documents it removed:
/// success also when nothing matched, so that deleting is idempotent.
pub fn delete_result(deleted: Result<u64, String>) -> (r: Result<(), Error>)
    ensures
        deleted is Ok ==> r is Ok,
        deleted matches Err(c) ==> r == Err::<(), Error>(
            Error { kind: ErrorKind::Storage { cause: c } },
        ),
{
    match deleted {
        Ok(_) => Ok(()),
        Err(cause) => Err(Error::new(ErrorKind::Storage { cause })),
    }
}

/// With the store seen as a map from key bytes to documents: after an insert
/// under the key the store assigned, the identifier that `create_result` hands
/// out for that key is well formed, and a read by it finds the inserted entry.
pub proof fn lemma_created_id_finds_entry<T>(docs: Map<Seq<u8>, T>, key: StoreKey, entry: T)
    ensures
        is_key_text(hex_text(key.bytes@)),
        docs.insert(key.bytes@, entry).contains_key(key_bytes_of(hex_text(key.bytes@))),
        docs.insert(key.bytes@, entry)[key_bytes_of(hex_text(key.bytes@))] == entry,
{
    crate::ident::lemma_key_round_trip(key.bytes@);
}

} // verus!

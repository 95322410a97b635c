//! What this crate believes of the crates and of the parts of std that it
//! calls. Every claim in this file is taken on trust; everything else in the
//! crate is proved from it.
use crate::error::ErrorChain;
use crate::storage::Cache;
use bytes::Bytes;
use futures::channel::mpsc;
use std::time::Duration;
use vstd::prelude::*;

verus! {

// ---------------------------------------------------------------------------
// opendal
// ---------------------------------------------------------------------------
/// The error of an `opendal` operation, carried as an opaque value.
#[verifier::external_type_specification]
#[verifier::external_body]
pub struct ExOpendalError(opendal::Error);

/// An `opendal` operator, carried as an opaque value.
#[verifier::external_type_specification]
#[verifier::external_body]
pub struct ExOperator(opendal::Operator);

/// The bytes that an `opendal` read hands back, carried as an opaque value.
#[verifier::external_type_specification]
#[verifier::external_body]
pub struct ExBuffer(opendal::Buffer);

/// The kinds of failure that `opendal` tells apart.
#[derive(Clone, Copy, Debug, PartialEq, Eq, Structural)]
pub enum RemoteErrorKind {
    Unexpected,
    Unsupported,
    ConfigInvalid,
    NotFound,
    PermissionDenied,
    IsADirectory,
    NotADirectory,
    AlreadyExists,
    RateLimited,
    IsSameFile,
    ConditionNotMatch,
    RangeNotSatisfied,
}

/// The text by which `opendal` displays a kind.
pub open spec fn kind_text(kind: RemoteErrorKind) -> Seq<char> {
    match kind {
        RemoteErrorKind::Unexpected => "Unexpected"@,
        RemoteErrorKind::Unsupported => "Unsupported"@,
        RemoteErrorKind::ConfigInvalid => "ConfigInvalid"@,
        RemoteErrorKind::NotFound => "NotFound"@,
        RemoteErrorKind::PermissionDenied => "PermissionDenied"@,
        RemoteErrorKind::IsADirectory => "IsADirectory"@,
        RemoteErrorKind::NotADirectory => "NotADirectory"@,
        RemoteErrorKind::AlreadyExists => "AlreadyExists"@,
        RemoteErrorKind::RateLimited => "RateLimited"@,
        RemoteErrorKind::IsSameFile => "IsSameFile"@,
        RemoteErrorKind::ConditionNotMatch => "ConditionNotMatch"@,
        RemoteErrorKind::RangeNotSatisfied => "RangeNotSatisfied"@,
    }
}

/// What `opendal::Error::kind` returns for an error. The kind is a field of the
/// error that nothing changes behind a shared reference.
pub uninterp spec fn error_kind_of(error: opendal::Error) -> RemoteErrorKind;

/// `opendal::Error::kind`, with the answer as a value of this crate. The
/// variants above are all that the enum has; the last arm only serves its
/// `non_exhaustive` mark.
#[verifier::external_body]
pub(crate) fn error_kind(error: &opendal::Error) -> (kind: RemoteErrorKind)
    ensures
        kind == error_kind_of(*error),
{
    match error.kind() {
        opendal::ErrorKind::Unexpected => RemoteErrorKind::Unexpected,
        opendal::ErrorKind::Unsupported => RemoteErrorKind::Unsupported,
        opendal::ErrorKind::ConfigInvalid => RemoteErrorKind::ConfigInvalid,
        opendal::ErrorKind::NotFound => RemoteErrorKind::NotFound,
        opendal::ErrorKind::PermissionDenied => RemoteErrorKind::PermissionDenied,
        opendal::ErrorKind::IsADirectory => RemoteErrorKind::IsADirectory,
        opendal::ErrorKind::NotADirectory => RemoteErrorKind::NotADirectory,
        opendal::ErrorKind::AlreadyExists => RemoteErrorKind::AlreadyExists,
        opendal::ErrorKind::RateLimited => RemoteErrorKind::RateLimited,
        opendal::ErrorKind::IsSameFile => RemoteErrorKind::IsSameFile,
        opendal::ErrorKind::ConditionNotMatch => RemoteErrorKind::ConditionNotMatch,
        opendal::ErrorKind::RangeNotSatisfied => RemoteErrorKind::RangeNotSatisfied,
        _ => RemoteErrorKind::Unexpected,
    }
}

/// `opendal::ErrorKind`'s `Display`, applied to the kind of an error: it writes
/// the variant's name and nothing else.
#[verifier::external_body]
pub(crate) fn error_kind_text(error: &opendal::Error) -> (text: String)
    ensures
        text@ == kind_text(error_kind_of(*error)),
{
    error.kind().to_string()
}

/// What `opendal::OperatorInfo::scheme` returns for an operator's info. It is set
/// while the service is built. Neither an operation of the operator nor a layer
/// changes it; only the setters of the raw accessor could, which this crate does
/// not reach for.
pub uninterp spec fn scheme_of(operator: opendal::Operator) -> Seq<char>;

/// What `opendal::OperatorInfo::name` returns for an operator's info, fixed in
/// the same way as the scheme.
pub uninterp spec fn name_of(operator: opendal::Operator) -> Seq<char>;

/// What `opendal::OperatorInfo::root` returns for an operator's info, fixed in
/// the same way as the scheme.
pub uninterp spec fn root_of(operator: opendal::Operator) -> Seq<char>;

/// `opendal::OperatorInfo::scheme`, on `opendal::Operator::info`: the name of
/// the service, as `s3`.
#[verifier::external_body]
pub(crate) fn operator_scheme(operator: &opendal::Operator) -> (scheme: &'static str)
    ensures
        scheme@ == scheme_of(*operator),
{
    operator.info().scheme()
}

/// `opendal::OperatorInfo::name`, on `opendal::Operator::info`: the bucket or
/// container, if the service has such a thing.
#[verifier::external_body]
pub(crate) fn operator_name(operator: &opendal::Operator) -> (name: String)
    ensures
        name@ == name_of(*operator),
{
    operator.info().name()
}

/// `opendal::OperatorInfo::root`, on `opendal::Operator::info`: the path under
/// which the operator works.
#[verifier::external_body]
pub(crate) fn operator_root(operator: &opendal::Operator) -> (root: String)
    ensures
        root@ == root_of(*operator),
{
    operator.info().root()
}

/// The parts that are left to read in an `opendal` buffer, in the order in which
/// its iterator hands them out. A part may be empty.
pub uninterp spec fn buffer_parts(buffer: opendal::Buffer) -> Seq<Seq<u8>>;

/// `opendal::Buffer`'s `Iterator::next` takes the first part out of what is left
/// to read. It gives `None`, and leaves the buffer alone, where no byte is left.
#[verifier::external_body]
pub(crate) fn next_part(buffer: &mut opendal::Buffer) -> (part: Option<bytes::Bytes>)
    ensures
        match part {
            Some(part) => buffer_parts(*old(buffer)) == seq![bytes_contents(part)] + buffer_parts(
                *final(buffer),
            ),
            None => buffer_parts(*old(buffer)).len() == 0 && buffer_parts(*final(buffer)).len() == 0,
        },
{
    buffer.next()
}

// ---------------------------------------------------------------------------
// bytes
// ---------------------------------------------------------------------------
/// A shared byte string of the `bytes` crate.
#[verifier::external_type_specification]
#[verifier::external_body]
pub struct ExBytes(bytes::Bytes);

/// The bytes that a `bytes::Bytes` holds.
pub uninterp spec fn bytes_contents(bytes: bytes::Bytes) -> Seq<u8>;

/// `bytes::Bytes`'s `From<Vec<u8>>` keeps the bytes as they are.
#[verifier::external_body]
pub(crate) fn bytes_from_vec(data: Vec<u8>) -> (bytes: bytes::Bytes)
    ensures
        bytes_contents(bytes) == data@,
{
    bytes::Bytes::from(data)
}

/// `bytes::Bytes`'s `AsRef<[u8]>` shows the bytes.
#[verifier::external_body]
pub(crate) fn bytes_as_slice(bytes: &bytes::Bytes) -> (slice: &[u8])
    ensures
        slice@ == bytes_contents(*bytes),
{
    bytes.as_ref()
}

/// `bytes::Bytes`'s `Clone` shares the same bytes.
pub assume_specification[ <bytes::Bytes as Clone>::clone ](bytes: &bytes::Bytes) -> (copy:
    bytes::Bytes)
    ensures
        bytes_contents(copy) == bytes_contents(*bytes),
;

// ---------------------------------------------------------------------------
// byteorder
// ---------------------------------------------------------------------------
/// The number that four bytes spell, most significant byte first.
pub open spec fn be_u32(bytes: Seq<u8>) -> nat {
    (bytes[0] * 0x100_0000 + bytes[1] * 0x1_0000 + bytes[2] * 0x100 + bytes[3]) as nat
}

/// The four bytes that spell a number below 2^32, most significant byte first.
pub open spec fn be_bytes(n: nat) -> Seq<u8> {
    seq![
        (n / 0x100_0000 % 0x100) as u8,
        (n / 0x1_0000 % 0x100) as u8,
        (n / 0x100 % 0x100) as u8,
        (n % 0x100) as u8,
    ]
}

/// `byteorder::BigEndian::read_u32` reads the first four bytes, most
/// significant first, and panics on a shorter buffer.
#[verifier::external_body]
pub(crate) fn read_u32(buf: &[u8]) -> (n: u32)
    requires
        buf@.len() >= 4,
    ensures
        n == be_u32(buf@),
{
    <byteorder::BigEndian as byteorder::ByteOrder>::read_u32(buf)
}

/// `byteorder::BigEndian::write_u32` fills the first four bytes, most
/// significant first, leaves the others alone, and panics on a shorter buffer.
#[verifier::external_body]
pub(crate) fn write_u32(buf: &mut [u8], n: u32)
    requires
        old(buf)@.len() >= 4,
    ensures
        final(buf)@ == be_bytes(n as nat) + old(buf)@.skip(4),
{
    <byteorder::BigEndian as byteorder::ByteOrder>::write_u32(buf, n)
}

// ---------------------------------------------------------------------------
// futures
// ---------------------------------------------------------------------------
/// A queue of look-up results: both ends of a `futures` channel. A send changes
/// what the receiving end will hand out, so that the two are only ever used
/// together.
#[verifier::external_body]
pub struct AnswerQueue {
    tx: mpsc::UnboundedSender<Result<Cache<Bytes>, ErrorChain>>,
    rx: mpsc::UnboundedReceiver<Result<Cache<Bytes>, ErrorChain>>,
}

/// What has been sent into a queue and not yet been received, oldest first.
pub uninterp spec fn queued(queue: AnswerQueue) -> Seq<Result<Cache<Bytes>, ErrorChain>>;

/// `futures::channel::mpsc::unbounded` makes a channel that holds nothing.
#[verifier::external_body]
pub(crate) fn answer_queue() -> (queue: AnswerQueue)
    ensures
        queued(queue).len() == 0,
{
    let (tx, rx) = mpsc::unbounded();
    AnswerQueue { tx, rx }
}

/// `UnboundedSender::unbounded_send` puts a message behind those that are in the
/// channel. It fails only where the receiving end is gone, and panics where the
/// channel's count of messages is used up.
#[verifier::external_body]
pub(crate) fn send_answer(queue: &mut AnswerQueue, answer: Result<Cache<Bytes>, ErrorChain>)
    requires
        queued(*old(queue)).len() < usize::MAX / 2,
    ensures
        queued(*final(queue)) == queued(*old(queue)).push(answer),
{
    queue.tx.unbounded_send(answer).unwrap();
}

/// `UnboundedReceiver::try_recv` takes the oldest message out of the channel. It
/// fails where there is none.
#[verifier::external_body]
pub(crate) fn receive_answer(queue: &mut AnswerQueue) -> (answer: Option<
    Result<Cache<Bytes>, ErrorChain>,
>)
    ensures
        match answer {
            Some(answer) => queued(*old(queue)) == seq![answer] + queued(*final(queue)),
            None => queued(*old(queue)).len() == 0 && queued(*final(queue)).len() == 0,
        },
{
    queue.rx.try_recv().ok()
}

// ---------------------------------------------------------------------------
// uuid
// ---------------------------------------------------------------------------
/// A lower-case hexadecimal digit.
pub open spec fn is_lower_hex(c: char) -> bool {
    ('0' <= c && c <= '9') || ('a' <= c && c <= 'f')
}

/// The hyphenated text of a random (version 4) UUID.
pub open spec fn is_uuid_v4_text(text: Seq<char>) -> bool {
    &&& text.len() == 36
    &&& text[8] == '-' && text[13] == '-' && text[18] == '-' && text[23] == '-'
    &&& text[14] == '4'
    &&& (text[19] == '8' || text[19] == '9' || text[19] == 'a' || text[19] == 'b')
    &&& forall|i: int|
        0 <= i < 36 && i != 8 && i != 13 && i != 18 && i != 23 ==> is_lower_hex(#[trigger] text[i])
}

/// `uuid::Uuid::new_v4`, displayed. The digits are random: only the form of the
/// text is claimed, not that two calls differ.
#[verifier::external_body]
pub(crate) fn new_uuid_v4_text() -> (text: String)
    ensures
        is_uuid_v4_text(text@),
{
    uuid::Uuid::new_v4().to_string()
}

// ---------------------------------------------------------------------------
// std
// ---------------------------------------------------------------------------
/// A path of the file system, carried as an opaque value.
#[verifier::external_type_specification]
#[verifier::external_body]
pub struct ExPathBuf(std::path::PathBuf);

/// `PathBuf`'s `Clone` makes a duplicate of the path.
pub assume_specification[ <std::path::PathBuf as Clone>::clone ](path: &std::path::PathBuf) -> (copy:
    std::path::PathBuf)
    ensures
        copy == *path,
;

/// An I/O error, carried as an opaque value.
#[verifier::external_type_specification]
#[verifier::external_body]
pub struct ExIoError(std::io::Error);

/// The kinds of I/O failure that the client tells apart.
#[derive(Clone, Copy, Debug, PartialEq, Eq, Structural)]
pub enum IoErrorKind {
    ConnectionRefused,
    NotFound,
    TimedOut,
    InvalidData,
    Other,
}

/// What `std::io::Error::kind` returns for an error, with every kind that the
/// client does not tell apart as `Other`.
pub uninterp spec fn io_kind_of(error: std::io::Error) -> IoErrorKind;

/// The text of the error that a `std::io::Error` wraps, if it wraps one: what
/// `std::io::Error::get_ref` shows.
pub uninterp spec fn io_payload_of(error: std::io::Error) -> Option<Seq<char>>;

/// `std::io::Error::kind`, with the answer as a value of this crate.
#[verifier::external_body]
pub(crate) fn io_error_kind(error: &std::io::Error) -> (kind: IoErrorKind)
    ensures
        kind == io_kind_of(*error),
{
    match error.kind() {
        std::io::ErrorKind::ConnectionRefused => IoErrorKind::ConnectionRefused,
        std::io::ErrorKind::NotFound => IoErrorKind::NotFound,
        std::io::ErrorKind::TimedOut => IoErrorKind::TimedOut,
        std::io::ErrorKind::InvalidData => IoErrorKind::InvalidData,
        _ => IoErrorKind::Other,
    }
}

/// `std::io::Error::new` makes an error of the given kind that wraps the given
/// message.
#[verifier::external_body]
pub(crate) fn io_error_new(kind: IoErrorKind, message: &str) -> (error: std::io::Error)
    ensures
        io_kind_of(error) == kind,
        io_payload_of(error) == Some(message@),
{
    let kind = match kind {
        IoErrorKind::ConnectionRefused => std::io::ErrorKind::ConnectionRefused,
        IoErrorKind::NotFound => std::io::ErrorKind::NotFound,
        IoErrorKind::TimedOut => std::io::ErrorKind::TimedOut,
        IoErrorKind::InvalidData => std::io::ErrorKind::InvalidData,
        IoErrorKind::Other => std::io::ErrorKind::Other,
    };
    std::io::Error::new(kind, message)
}

/// `std::io::Error`'s `From<std::io::ErrorKind>` makes an error of the given
/// kind that wraps nothing.
#[verifier::external_body]
pub(crate) fn io_error_from_kind(kind: IoErrorKind) -> (error: std::io::Error)
    ensures
        io_kind_of(error) == kind,
        io_payload_of(error) is None,
{
    std::io::Error::from(match kind {
        IoErrorKind::ConnectionRefused => std::io::ErrorKind::ConnectionRefused,
        IoErrorKind::NotFound => std::io::ErrorKind::NotFound,
        IoErrorKind::TimedOut => std::io::ErrorKind::TimedOut,
        IoErrorKind::InvalidData => std::io::ErrorKind::InvalidData,
        IoErrorKind::Other => std::io::ErrorKind::Other,
    })
}

/// The length of a duration in nanoseconds.
pub uninterp spec fn nanos(duration: Duration) -> nat;

/// `Duration::from_secs` makes a duration of that many whole seconds.
pub assume_specification[ Duration::from_secs ](secs: u64) -> (duration: Duration)
    ensures
        nanos(duration) == secs * 1_000_000_000,
;

/// `Duration::from_millis` makes a duration of that many milliseconds.
pub assume_specification[ Duration::from_millis ](millis: u64) -> (duration: Duration)
    ensures
        nanos(duration) == millis * 1_000_000,
;

/// `Duration::is_zero` tells whether a duration spans no time.
pub assume_specification[ Duration::is_zero ](duration: &Duration) -> (zero: bool)
    ensures
        zero == (nanos(*duration) == 0),
;

/// `Ord::min` on durations: the shorter of the two.
#[verifier::external_body]
pub(crate) fn shorter(left: Duration, right: Duration) -> (duration: Duration)
    ensures
        nanos(duration) == if nanos(left) <= nanos(right) {
            nanos(left)
        } else {
            nanos(right)
        },
{
    left.min(right)
}

} // verus!

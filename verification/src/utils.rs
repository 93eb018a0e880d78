//! Error values that operations of this crate report, and small helpers
//! for the fixed-size C strings that the device interface carries.

use vstd::prelude::*;

use crate::types::ContentType;

verus! {

/// Kind of failure that an operation can report.
#[derive(Clone, Copy, Debug, PartialEq, Eq, Structural)]
pub enum ErrorKind {
    /// The caller handed in a value that the interface rejects.
    InvalidInput,
    /// Data coming from the device does not have the promised shape.
    InvalidData,
    /// The driver's view and the pool's bookkeeping have diverged;
    /// no recovery is attempted.
    ProtocolViolation,
}

/// An error of the video interface: a kind together with a short
/// explanation.
#[derive(Clone, Copy, Debug)]
pub struct Error {
    pub kind: ErrorKind,
    pub msg: &'static str,
}

impl Error {
    /// Build an error from its parts.
    pub fn new(kind: ErrorKind, msg: &'static str) -> (r: Error)
        ensures
            r.kind == kind,
            r.msg == msg,
    {
        Error { kind, msg }
    }

    /// The kind of the error.
    pub fn kind(&self) -> (r: ErrorKind)
        ensures
            r == self.kind,
    {
        self.kind
    }

    /// The explanation attached to the error.
    pub fn message(&self) -> (r: &'static str)
        ensures
            r == self.msg,
    {
        self.msg
    }
}

/// Build an error that reports rejected caller input.
pub fn invalid_input(msg: &'static str) -> (r: Error)
    ensures
        r.kind == ErrorKind::InvalidInput,
        r.msg == msg,
{
    Error { kind: ErrorKind::InvalidInput, msg }
}

/// Build an error that reports malformed data from the device.
pub fn invalid_data(msg: &'static str) -> (r: Error)
    ensures
        r.kind == ErrorKind::InvalidData,
        r.msg == msg,
{
    Error { kind: ErrorKind::InvalidData, msg }
}

/// Build an error that reports a divergence between the driver and the
/// pool's bookkeeping.
pub fn protocol_violation(msg: &'static str) -> (r: Error)
    ensures
        r.kind == ErrorKind::ProtocolViolation,
        r.msg == msg,
{
    Error { kind: ErrorKind::ProtocolViolation, msg }
}

/// A transparent wrapper that marks a value as produced by the protocol
/// machinery rather than built ad hoc by a caller.
pub struct Internal<T>(pub T);

impl<T> Internal<T> {
    /// Wrap a value.
    pub fn new(inner: T) -> (r: Internal<T>)
        ensures
            r.0 == inner,
    {
        Internal(inner)
    }

    /// Unwrap the value.
    pub fn into_inner(self) -> (r: T)
        ensures
            r == self.0,
    {
        self.0
    }

    /// A reference to the value.
    pub fn inner(&self) -> (r: &T)
        ensures
            r == self.0,
    {
        &self.0
    }

    /// Apply a function to the wrapped value.
    pub fn map<R, F: FnOnce(T) -> R>(self, mapper: F) -> (r: Internal<R>)
        requires
            mapper.requires((self.0,)),
        ensures
            mapper.ensures((self.0,), r.0),
    {
        Internal(mapper(self.0))
    }
}

/// The bytes of a fixed-size C string before its first terminator.
pub open spec fn spec_nul_prefix(s: Seq<u8>) -> Seq<u8>
    decreases s.len(),
{
    if s.len() == 0 {
        s
    } else if s[0] == 0 {
        Seq::empty()
    } else {
        seq![s[0]] + spec_nul_prefix(s.drop_first())
    }
}

/// A scan that stops at the first zero byte finds exactly the terminator
/// prefix.
proof fn lemma_nul_prefix_scan(s: Seq<u8>, i: int)
    requires
        0 <= i <= s.len(),
        forall|k: int| 0 <= k < i ==> s[k] != 0,
        i < s.len() ==> s[i] == 0,
    ensures
        spec_nul_prefix(s) == s.subrange(0, i),
    decreases s.len(),
{
    if s.len() == 0 {
        assert(s.subrange(0, 0) =~= s);
    } else if s[0] == 0 {
        assert(i == 0);
        assert(s.subrange(0, 0) =~= Seq::<u8>::empty());
    } else {
        lemma_nul_prefix_scan(s.drop_first(), i - 1);
        assert(seq![s[0]] + s.drop_first().subrange(0, i - 1) =~= s.subrange(0, i));
    }
}

/// Whether a byte is a C-string terminator.
pub fn is_null(src: &u8) -> (r: bool)
    ensures
        r == (*src == 0),
{
    *src == 0
}

/// The bytes of a fixed-size C string before its first terminator.
pub fn get_ascii(src: &[u8]) -> (r: Vec<u8>)
    ensures
        r@ == spec_nul_prefix(src@),
{
    let n = src.len();
    let mut out: Vec<u8> = Vec::new();
    let mut i: usize = 0;
    while i < n
        invariant
            i <= n,
            n == src@.len(),
            out@ == src@.subrange(0, i as int),
            forall|k: int| 0 <= k < i ==> src@[k] != 0,
        decreases n - i,
    {
        let byte = src[i];
        if is_null(&byte) {
            proof {
                lemma_nul_prefix_scan(src@, i as int);
            }
            return out;
        }
        out.push(byte);
        proof {
            assert(out@ =~= src@.subrange(0, i + 1));
        }
        i = i + 1;
    }
    proof {
        lemma_nul_prefix_scan(src@, n as int);
    }
    out
}

/// The characters that a byte sequence decodes to, when it is valid
/// UTF-8; what `String::from_utf8` computes.
pub uninterp spec fn utf8_decode(bytes: Seq<u8>) -> Option<Seq<char>>;

/// Relies on `String::from_utf8`: returns the decoded string exactly when
/// the bytes are valid UTF-8.
#[verifier::external_body]
fn string_from_utf8(bytes: Vec<u8>) -> (r: Option<String>)
    ensures
        r is Some <==> utf8_decode(bytes@) is Some,
        r matches Some(s) ==> utf8_decode(bytes@) == Some(s@),
{
    String::from_utf8(bytes).ok()
}

/// Check that a fixed-size C string holds valid UTF-8 before its
/// terminator; anything else is malformed data from the device.
pub fn check_str(src: &[u8]) -> (r: Result<(), Error>)
    ensures
        r is Ok <==> utf8_decode(spec_nul_prefix(src@)) is Some,
        r matches Err(e) ==> e.kind == ErrorKind::InvalidData,
{
    match get_str(src) {
        Ok(_) => Ok(()),
        Err(e) => Err(e),
    }
}

/// Decode a fixed-size C string: the bytes before the first terminator,
/// read as UTF-8.  Fails exactly when those bytes are not valid UTF-8.
pub fn get_str(src: &[u8]) -> (r: Result<String, Error>)
    ensures
        r is Ok <==> utf8_decode(spec_nul_prefix(src@)) is Some,
        r matches Ok(s) ==> utf8_decode(spec_nul_prefix(src@)) == Some(s@),
        r matches Err(e) ==> e.kind == ErrorKind::InvalidData,
{
    let prefix = get_ascii(src);
    match string_from_utf8(prefix) {
        Some(s) => Ok(s),
        None => Err(invalid_data("Invalid UTF-8")),
    }
}

/// The content class that a device file name announces: names beginning
/// with `video` carry video, `vbi` raw VBI, and `radio` or `swradio`
/// software-defined radio; any other name is not a video device.
pub open spec fn spec_check_dev_name(name: Seq<u8>) -> Option<ContentType> {
    if spec_prefix_video().is_prefix_of(name) {
        Some(ContentType::Video)
    } else if spec_prefix_vbi().is_prefix_of(name) {
        Some(ContentType::Vbi)
    } else if spec_prefix_radio().is_prefix_of(name) || spec_prefix_swradio().is_prefix_of(name) {
        Some(ContentType::Sdr)
    } else {
        None
    }
}

/// The bytes of the name prefix `video`.
pub open spec fn spec_prefix_video() -> Seq<u8> {
    seq![118u8, 105u8, 100u8, 101u8, 111u8]
}

/// The bytes of the name prefix `vbi`.
pub open spec fn spec_prefix_vbi() -> Seq<u8> {
    seq![118u8, 98u8, 105u8]
}

/// The bytes of the name prefix `radio`.
pub open spec fn spec_prefix_radio() -> Seq<u8> {
    seq![114u8, 97u8, 100u8, 105u8, 111u8]
}

/// The bytes of the name prefix `swradio`.
pub open spec fn spec_prefix_swradio() -> Seq<u8> {
    seq![115u8, 119u8, 114u8, 97u8, 100u8, 105u8, 111u8]
}

/// Whether `prefix` starts `name`.
fn starts_with(name: &[u8], prefix: &[u8]) -> (r: bool)
    ensures
        r == prefix@.is_prefix_of(name@),
{
    let np = prefix.len();
    if np > name.len() {
        proof {
            assert(!prefix@.is_prefix_of(name@));
        }
        return false;
    }
    let mut i: usize = 0;
    while i < np
        invariant
            i <= np,
            np == prefix@.len(),
            np <= name@.len(),
            forall|k: int| 0 <= k < i ==> name@[k] == prefix@[k],
        decreases np - i,
    {
        if name[i] != prefix[i] {
            proof {
                assert(name@.subrange(0, np as int)[i as int] == name@[i as int]);
                assert(!prefix@.is_prefix_of(name@));
            }
            return false;
        }
        i = i + 1;
    }
    proof {
        assert(prefix@ =~= name@.subrange(0, np as int));
    }
    true
}

/// Check a device file name's prefix for the content class it announces.
pub fn check_dev_name(name: &[u8]) -> (r: Option<ContentType>)
    ensures
        r == spec_check_dev_name(name@),
{
    let video: [u8; 5] = [118, 105, 100, 101, 111];
    let vbi: [u8; 3] = [118, 98, 105];
    let radio: [u8; 5] = [114, 97, 100, 105, 111];
    let swradio: [u8; 7] = [115, 119, 114, 97, 100, 105, 111];
    proof {
        assert(video@ =~= spec_prefix_video());
        assert(vbi@ =~= spec_prefix_vbi());
        assert(radio@ =~= spec_prefix_radio());
        assert(swradio@ =~= spec_prefix_swradio());
    }
    if starts_with(name, video.as_slice()) {
        Some(ContentType::Video)
    } else if starts_with(name, vbi.as_slice()) {
        Some(ContentType::Vbi)
    } else if starts_with(name, radio.as_slice()) || starts_with(name, swradio.as_slice()) {
        Some(ContentType::Sdr)
    } else {
        None
    }
}

} // verus!

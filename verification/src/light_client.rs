use vstd::prelude::*;

use base64::Engine;

verus! {

/// A SHA-256 digest as the light client stores it: exactly 32 raw bytes.
#[derive(Clone, Copy, Debug, PartialEq, Eq)]
pub struct Hash(pub [u8; 32]);

/// A validator's account identity: 20 raw bytes.
#[derive(Clone, Copy, Debug, PartialEq, Eq)]
pub struct AccountId(pub [u8; 20]);

/// A 256-bit value as stored on chain.
#[derive(Clone, Copy, Debug, PartialEq, Eq)]
pub struct H256(pub [u8; 32]);

/// A 512-bit value as stored on chain, typically a signature.
#[derive(Clone, Copy, Debug, PartialEq, Eq)]
pub struct H512(pub [u8; 64]);

/// A point in time as the light client stores it: seconds of the unix epoch
/// and the nanosecond within the second.
#[derive(Clone, Copy, Debug, PartialEq, Eq, Structural)]
pub struct TimestampStorage {
    pub seconds: i64,
    pub nanos: u32,
}

/// Reads a digest from its raw bytes. The digest is always exactly as long
/// as a SHA-256 output.
pub fn sha256_from_bytes(bytes: &[u8]) -> (r: Hash)
    requires
        bytes@.len() == 32,
    ensures
        r.0@ == bytes@,
{
    let mut out = [0u8; 32];
    let mut i: usize = 0;
    #[verifier::loop_isolation(false)]
    while i < 32
        invariant
            i <= 32,
            forall|j: int| 0 <= j < i ==> out@[j] == bytes@[j],
        decreases 32 - i,
    {
        out[i] = bytes[i];
        i += 1;
    }
    let r = Hash(out);
    proof {
        assert(r.0@ =~= bytes@);
    }
    r
}

/// Reads an account identity from its raw bytes.
pub fn account_id_from_bytes(bytes: [u8; 20]) -> (r: AccountId)
    ensures
        r.0 == bytes,
{
    AccountId(bytes)
}

impl H256 {
    /// Reads a 256-bit value from a 32-byte slice.
    pub fn from_slice(bytes: &Vec<u8>) -> (r: H256)
        requires
            bytes@.len() == 32,
        ensures
            r.0@ == bytes@,
    {
        let mut out = [0u8; 32];
        let mut i: usize = 0;
        #[verifier::loop_isolation(false)]
        while i < 32
            invariant
                i <= 32,
                forall|j: int| 0 <= j < i ==> out@[j] == bytes@[j],
            decreases 32 - i,
        {
            out[i] = bytes[i];
            i += 1;
        }
        let r = H256(out);
        proof {
            assert(r.0@ =~= bytes@);
        }
        r
    }
}

impl H512 {
    /// Reads a 512-bit value from a 64-byte slice.
    pub fn from_slice(bytes: &Vec<u8>) -> (r: H512)
        requires
            bytes@.len() == 64,
        ensures
            r.0@ == bytes@,
    {
        let mut out = [0u8; 64];
        let mut i: usize = 0;
        #[verifier::loop_isolation(false)]
        while i < 64
            invariant
                i <= 64,
                forall|j: int| 0 <= j < i ==> out@[j] == bytes@[j],
            decreases 64 - i,
        {
            out[i] = bytes[i];
            i += 1;
        }
        let r = H512(out);
        proof {
            assert(r.0@ =~= bytes@);
        }
        r
    }
}

/// The unix timestamp (seconds, nanosecond) an RFC 3339 string denotes, or
/// `None` where the string is not in that format. The result depends on the
/// characters alone.
pub uninterp spec fn rfc3339_timestamp(s: Seq<char>) -> Option<(i64, u32)>;

/// Relies on time's `OffsetDateTime::parse` with the RFC 3339 well-known
/// format, and on its `unix_timestamp` and `nanosecond` accessors to read
/// the parsed instant out.
#[verifier::external_body]
fn parse_rfc3339(s: &str) -> (r: Option<(i64, u32)>)
    ensures
        r == rfc3339_timestamp(s@),
{
    match time::OffsetDateTime::parse(s, &time::format_description::well_known::Rfc3339) {
        Ok(dt) => Some((dt.unix_timestamp(), dt.nanosecond())),
        Err(_) => None,
    }
}

/// Reads a unix timestamp from an RFC 3339 formatted string; anything else
/// is rejected with the fixed parse-error text.
pub fn timestamp_from_rfc3339(s: &str) -> (r: Result<TimestampStorage, &'static str>)
    ensures
        r is Ok <==> rfc3339_timestamp(s@) is Some,
        r matches Ok(t) ==> (rfc3339_timestamp(s@) matches Some(p) && t.seconds == p.0 && t.nanos
            == p.1),
        r matches Err(e) ==> e@ == "Not in rfc3339 format"@,
{
    match parse_rfc3339(s) {
        Some(parts) => Ok(TimestampStorage { seconds: parts.0, nanos: parts.1 }),
        None => Err("Not in rfc3339 format"),
    }
}

/// The bytes a standard-alphabet base64 string denotes, or `None` where the
/// string is not well-formed base64. The result depends on the characters
/// alone.
pub uninterp spec fn base64_decoded(s: Seq<char>) -> Option<Seq<u8>>;

/// Relies on the base64 crate's standard-alphabet engine for decoding.
#[verifier::external_body]
fn base64_decode(s: &str) -> (r: Option<Vec<u8>>)
    ensures
        match r {
            Some(v) => base64_decoded(s@) == Some(v@),
            None => base64_decoded(s@) is None,
        },
{
    base64::engine::general_purpose::STANDARD.decode(s).ok()
}

/// Reads a signature from its base64 rendering. A string that is not base64
/// is rejected with the fixed error text; the decoded bytes are always a full
/// signature long, which is what the `requires` records.
pub fn base64string_as_h512(s: &str) -> (r: Result<H512, &'static str>)
    requires
        base64_decoded(s@) matches Some(b) ==> b.len() == 64,
    ensures
        r is Ok <==> base64_decoded(s@) is Some,
        r matches Ok(h) ==> (base64_decoded(s@) matches Some(b) && h.0@ == b),
        r matches Err(e) ==> e@ == "Not base64 encoded string"@,
{
    match base64_decode(s) {
        Some(bytes) => Ok(H512::from_slice(&bytes)),
        None => Err("Not base64 encoded string"),
    }
}

/// Reads a signature from its base64 rendering, for strings of any origin:
/// input that is not base64, or decodes to anything but a full signature, is
/// reported as `None` rather than being outside the domain.
pub fn checked_base64string_as_h512(s: &str) -> (r: Option<H512>)
    ensures
        r is Some <==> (base64_decoded(s@) matches Some(b) && b.len() == 64),
        r matches Some(h) ==> (base64_decoded(s@) matches Some(b) && h.0@ == b),
{
    match base64_decode(s) {
        Some(bytes) => {
            if bytes.len() == 64 {
                match base64string_as_h512(s) {
                    Ok(h) => Some(h),
                    Err(_) => None,
                }
            } else {
                None
            }
        },
        None => None,
    }
}

/// Reads a 256-bit value from its base64 rendering: `None` for input that is
/// not base64 or does not decode to exactly 32 bytes.
pub fn checked_base64string_as_h256(s: &str) -> (r: Option<H256>)
    ensures
        r is Some <==> (base64_decoded(s@) matches Some(b) && b.len() == 32),
        r matches Some(h) ==> (base64_decoded(s@) matches Some(b) && h.0@ == b),
{
    match base64_decode(s) {
        Some(bytes) => {
            if bytes.len() == 32 {
                Some(H256::from_slice(&bytes))
            } else {
                None
            }
        },
        None => None,
    }
}

/// The light client's error conditions.
#[derive(Clone, Copy, Debug, PartialEq, Eq, Structural)]
pub enum Error {
    /// Unable to deserialize the submitted payload.
    DeserializeError,
    /// The light client has not been initialized.
    NotInitialized,
    /// The light client has already been initialized.
    AlreadyInitialized,
    /// The light client is halted.
    Halted,
}

/// The events the light client announces.
#[derive(Clone, Copy, Debug, PartialEq, Eq, Structural)]
pub enum Event {
    /// All light-client operations are halted.
    LightClientHalted,
    /// Light-client operations are resumed.
    LightClientResumed,
    /// The light client was initialized.
    ClientInitialized(u32),
}

/// The on-chain state the light client keeps: whether it is stopped. The
/// surrounding runtime performs the root checks and the payload
/// deserialization; what each call decides from this state is verified here.
pub struct LightClient {
    is_halted: bool,
}

impl LightClient {
    pub closed spec fn spec_is_halted(&self) -> bool {
        self.is_halted
    }

    /// A fresh light client runs; nothing has halted it yet.
    pub fn new() -> (r: LightClient)
        ensures
            !r.spec_is_halted(),
    {
        LightClient { is_halted: false }
    }

    pub fn is_halted(&self) -> (r: bool)
        ensures
            r == self.spec_is_halted(),
    {
        self.is_halted
    }

    /// Guards every operation that must not run on a halted client.
    pub fn ensure_not_halted(&self) -> (r: Result<(), Error>)
        ensures
            r is Ok <==> !self.spec_is_halted(),
            r matches Err(e) ==> e == Error::Halted,
    {
        if self.is_halted {
            Err(Error::Halted)
        } else {
            Ok(())
        }
    }

    /// Accepts an initialization exactly when the submitted options payload
    /// deserialized; the payload itself is decoded by the runtime, which
    /// reports the outcome here.
    pub fn initialize_client(&self, options_parsed: bool) -> (r: Result<(), Error>)
        ensures
            r is Ok <==> options_parsed,
            r matches Err(e) ==> e == Error::DeserializeError,
    {
        if options_parsed {
            Ok(())
        } else {
            Err(Error::DeserializeError)
        }
    }

    /// Accepts a finality proof only on a running client and only when the
    /// submitted light-block payload deserialized — in that order: a halted
    /// client reports `Halted` whatever the payload.
    pub fn submit_finality_proof(&self, light_block_parsed: bool) -> (r: Result<(), Error>)
        ensures
            self.spec_is_halted() ==> r == Err::<(), Error>(Error::Halted),
            !self.spec_is_halted() && !light_block_parsed ==> r == Err::<(), Error>(
                Error::DeserializeError,
            ),
            !self.spec_is_halted() && light_block_parsed ==> r is Ok,
    {
        match self.ensure_not_halted() {
            Ok(_) => {
                if light_block_parsed {
                    Ok(())
                } else {
                    Err(Error::DeserializeError)
                }
            },
            Err(e) => Err(e),
        }
    }

    /// Halts or resumes all light-client operations, announcing which of the
    /// two happened.
    pub fn set_halted(&mut self, halted: bool) -> (e: Event)
        ensures
            final(self).spec_is_halted() == halted,
            e == (if halted {
                Event::LightClientHalted
            } else {
                Event::LightClientResumed
            }),
    {
        self.is_halted = halted;
        if halted {
            Event::LightClientHalted
        } else {
            Event::LightClientResumed
        }
    }
}

} // verus!

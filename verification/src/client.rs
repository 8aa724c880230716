use vstd::prelude::*;
use vstd::string::StrSliceExecFns;

verus! {

/// The session keys a node registers on chain: one 32-byte public key for
/// each of the two consensus engines.
#[derive(Clone, Copy, Debug, PartialEq, Eq)]
pub struct Keys {
    pub aura: [u8; 32],
    pub aleph: [u8; 32],
}

/// Whether the character is one of the sixteen hexadecimal digits, in either
/// case. Stated over code points, which is how the parser reads them.
pub open spec fn is_hex_digit(c: char) -> bool {
    (48 <= c as int && c as int <= 57) || (97 <= c as int && c as int <= 102) || (65 <= c as int
        && c as int <= 70)
}

/// The numeric value of a hexadecimal digit.
pub open spec fn hex_digit_value(c: char) -> int {
    if 48 <= c as int && c as int <= 57 {
        c as int - 48
    } else if 97 <= c as int && c as int <= 102 {
        c as int - 87
    } else {
        c as int - 55
    }
}

/// The characters that carry digits: a leading `0x` is dropped.
pub open spec fn spec_hex_stripped(s: Seq<char>) -> Seq<char> {
    if s.len() >= 2 && s[0] as int == 48 && s[1] as int == 120 {
        s.skip(2)
    } else {
        s
    }
}

/// What hex-decoding the string yields: after dropping an optional `0x`
/// prefix, an even number of hex digits becomes one byte per digit pair;
/// anything else is rejected.
pub open spec fn spec_hex_decoded(s: Seq<char>) -> Option<Seq<u8>> {
    let t = spec_hex_stripped(s);
    if t.len() % 2 == 0 && (forall|i: int| 0 <= i < t.len() ==> is_hex_digit(#[trigger] t[i])) {
        Some(
            Seq::new(
                t.len() / 2,
                |i: int| (hex_digit_value(t[2 * i]) * 16 + hex_digit_value(t[2 * i + 1])) as u8,
            ),
        )
    } else {
        None
    }
}

/// The numeric value of one hexadecimal digit character, or `None` for any
/// other character.
fn hex_value_of(c: char) -> (r: Option<u8>)
    ensures
        r matches Some(v) ==> is_hex_digit(c) && v == hex_digit_value(c) && v <= 15,
        r is None ==> !is_hex_digit(c),
{
    let x = c as u32;
    if 48 <= x && x <= 57 {
        Some((x - 48) as u8)
    } else if 97 <= x && x <= 102 {
        Some((x - 87) as u8)
    } else if 65 <= x && x <= 70 {
        Some((x - 55) as u8)
    } else {
        None
    }
}

impl Keys {
    /// Splits 64 raw bytes into the two keys, in storage order: the first 32
    /// bytes are the aura key, the rest the aleph key.
    #[verifier::loop_isolation(false)]
    pub fn from_bytes(bytes: &Vec<u8>) -> (r: Keys)
        requires
            bytes@.len() == 64,
        ensures
            r.aura@ == bytes@.take(32),
            r.aleph@ == bytes@.skip(32),
    {
        let mut aura = [0u8; 32];
        let mut aleph = [0u8; 32];
        let mut i: usize = 0;
        while i < 32
            invariant
                i <= 32,
                bytes@.len() == 64,
                forall|j: int| 0 <= j < i ==> aura@[j] == bytes@[j],
                forall|j: int| 0 <= j < i ==> aleph@[j] == bytes@[j + 32],
            decreases 32 - i,
        {
            aura[i] = bytes[i];
            aleph[i] = bytes[32 + i];
            i += 1;
        }
        let r = Keys { aura, aleph };
        proof {
            assert(r.aura@ =~= bytes@.take(32));
            assert(r.aleph@ =~= bytes@.skip(32));
        }
        r
    }

    /// Parses the hex rendering of the 64 key bytes, with or without a `0x`
    /// prefix. Strings that are not well-formed hex are rejected; well-formed
    /// hex of any other length than 64 bytes is outside this parser's domain,
    /// as the key pair is always exactly that long.
    #[verifier::loop_isolation(false)]
    pub fn try_from(keys: String) -> (r: Result<Keys, ()>)
        requires
            spec_hex_decoded(keys@) matches Some(b) ==> b.len() == 64,
        ensures
            r is Ok <==> spec_hex_decoded(keys@) is Some,
            r matches Ok(k) ==> (spec_hex_decoded(keys@) matches Some(b) && k.aura@ == b.take(32)
                && k.aleph@ == b.skip(32)),
    {
        let s: &str = keys.as_str();
        let n = s.unicode_len();
        let start: usize = if n >= 2 && s.get_char(0) as u32 == 48 && s.get_char(1) as u32
            == 120 {
            2
        } else {
            0
        };
        let ghost t = spec_hex_stripped(keys@);
        proof {
            assert(t =~= keys@.skip(start as int));
        }
        if n - start != 128 {
            proof {
                if spec_hex_decoded(keys@) is Some {
                    let b = spec_hex_decoded(keys@).unwrap();
                    assert(b.len() == t.len() / 2);
                    assert(false);
                }
            }
            return Err(());
        }
        let mut out: Vec<u8> = Vec::new();
        let mut i: usize = 0;
        while i < 64
            invariant
                i <= 64,
                n - start == 128,
                n as int == keys@.len(),
                start + 128 <= n,
                t == spec_hex_stripped(keys@),
                t =~= keys@.skip(start as int),
                out@.len() == i,
                forall|j: int| 0 <= j < 2 * i ==> is_hex_digit(#[trigger] t[j]),
                forall|j: int|
                    0 <= j < i ==> out@[j] == (hex_digit_value(t[2 * j]) * 16 + hex_digit_value(
                        t[2 * j + 1],
                    )) as u8,
            decreases 64 - i,
        {
            let hi = s.get_char(start + 2 * i);
            let lo = s.get_char(start + 2 * i + 1);
            assert(hi == t[2 * i as int]);
            assert(lo == t[2 * i as int + 1]);
            let hi_v = match hex_value_of(hi) {
                Some(v) => v,
                None => {
                    return Err(());
                },
            };
            let lo_v = match hex_value_of(lo) {
                Some(v) => v,
                None => {
                    return Err(());
                },
            };
            out.push(hi_v * 16 + lo_v);
            i += 1;
        }
        let ghost b = spec_hex_decoded(keys@).unwrap();
        proof {
            assert(t.len() == 128);
            assert(spec_hex_decoded(keys@) is Some);
            assert(out@ =~= b);
        }
        Ok(Keys::from_bytes(&out))
    }
}

/// The number of the current session, as read from chain storage: a chain
/// that has not rotated sessions yet has nothing stored, which counts as
/// session zero.
pub fn get_current(stored_index: Option<u32>) -> (r: u32)
    ensures
        r == (match stored_index {
            Some(i) => i,
            None => 0u32,
        }),
{
    match stored_index {
        Some(i) => i,
        None => 0,
    }
}

/// Decides when waiting for a session is over: given the session indices
/// announced so far, reports the wanted index once it has been announced, and
/// nothing otherwise — the caller keeps feeding announcements until then.
pub fn wait_for(observed_sessions: &Vec<u32>, session_index: u32) -> (r: Option<u32>)
    ensures
        r is Some <==> observed_sessions@.contains(session_index),
        r matches Some(i) ==> i == session_index,
{
    let mut i: usize = 0;
    while i < observed_sessions.len()
        invariant
            i <= observed_sessions@.len(),
            forall|j: int| 0 <= j < i ==> observed_sessions@[j] != session_index,
        decreases observed_sessions@.len() - i,
    {
        if observed_sessions[i] == session_index {
            return Some(session_index);
        }
        i += 1;
    }
    None
}

/// The first session of the given era: eras are `sessions_per_era` sessions
/// long, numbered from the start of the chain.
pub fn first_session_in_era(era_index: u32, sessions_per_era: u32) -> (r: u32)
    requires
        era_index * sessions_per_era <= u32::MAX,
    ensures
        r == era_index * sessions_per_era,
{
    era_index * sessions_per_era
}

/// Whether every account's locked balance strictly grew between the two
/// snapshots, which is what a successful staking payout must show.
pub fn locked_balances_increased(before: &Vec<u128>, after: &Vec<u128>) -> (r: bool)
    requires
        before@.len() == after@.len(),
    ensures
        r == (forall|i: int| 0 <= i < before@.len() ==> before@[i] < after@[i]),
{
    let mut i: usize = 0;
    while i < before.len()
        invariant
            before@.len() == after@.len(),
            i <= before@.len(),
            forall|j: int| 0 <= j < i ==> before@[j] < after@[j],
        decreases before@.len() - i,
    {
        if before[i] >= after[i] {
            return false;
        }
        i += 1;
    }
    true
}

} // verus!

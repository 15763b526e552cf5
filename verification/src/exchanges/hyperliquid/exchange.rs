//! Hyperliquid exchange actions: the schedule-cancel action and the check
//! of its time.
use vstd::prelude::*;
use crate::text::{contains_text, owned, text_contains};
use vstd::utf8::encode_utf8;

verus! {

#[derive(Debug, Clone)]
pub struct ScheduleCancel {
    pub type_field: String,
    pub time: Option<u64>,
}

/// The message with which a schedule-cancel time that is too near is refused.
pub open spec fn too_soon_message() -> Seq<char> {
    "Schedule cancel time must be at least 5 seconds in the future"@
}

/// Checks that a dead-man's-switch time `time_ms` lies at least five seconds
/// after `now_ms` (both in milliseconds since the Unix epoch); otherwise the
/// refusal's message.
pub fn validate_schedule_time(time_ms: u64, now_ms: u64) -> (r: Result<(), String>)
    ensures
        r is Ok <==> time_ms >= now_ms + 5000,
        r matches Err(m) ==> m@ == too_soon_message(),
{
    if time_ms < now_ms || time_ms - now_ms < 5000 {
        Err(owned("Schedule cancel time must be at least 5 seconds in the future"))
    } else {
        Ok(())
    }
}

impl ScheduleCancel {
    /// The action that cancels all open orders at `time_ms`.
    pub fn at(time_ms: u64) -> (r: Self)
        ensures
            r.type_field@ == "scheduleCancel"@,
            r.time == Some(time_ms),
    {
        ScheduleCancel { type_field: owned("scheduleCancel"), time: Some(time_ms) }
    }
}

/// The eight bytes of `n`, most significant first.
pub open spec fn be_bytes(n: u64) -> Seq<u8> {
    seq![
        (n >> 56u64) as u8,
        (n >> 48u64) as u8,
        (n >> 40u64) as u8,
        (n >> 32u64) as u8,
        (n >> 24u64) as u8,
        (n >> 16u64) as u8,
        (n >> 8u64) as u8,
        n as u8,
    ]
}

/// The bytes whose Keccak-256 hash is the connection id signed for an
/// action: the action's MessagePack encoding, the nonce as eight big-endian
/// bytes, and twenty zero bytes standing for the absent vault address.
pub open spec fn connection_id_input(action: Seq<u8>, nonce: u64) -> Seq<u8> {
    action + be_bytes(nonce) + Seq::new(20, |i: int| 0u8)
}

/// Frames the bytes to hash for an action, as `connection_id_input` says.
pub fn action_hash_input(action: &[u8], nonce: u64) -> (r: Vec<u8>)
    ensures
        r@ == connection_id_input(action@, nonce),
{
    let mut out: Vec<u8> = Vec::new();
    let mut i: usize = 0;
    while i < action.len()
        invariant
            i <= action.len(),
            out@ == action@.take(i as int),
        decreases action.len() - i,
    {
        out.push(action[i]);
        assert(action@.take(i + 1) =~= action@.take(i as int).push(action@[i as int]));
        i = i + 1;
    }
    assert(action@.take(i as int) =~= action@);
    out.push((nonce >> 56u64) as u8);
    out.push((nonce >> 48u64) as u8);
    out.push((nonce >> 40u64) as u8);
    out.push((nonce >> 32u64) as u8);
    out.push((nonce >> 24u64) as u8);
    out.push((nonce >> 16u64) as u8);
    out.push((nonce >> 8u64) as u8);
    out.push(nonce as u8);
    let ghost framed = out@;
    assert(framed =~= action@ + be_bytes(nonce));
    let mut k: usize = 0;
    while k < 20
        invariant
            k <= 20,
            out@ == framed + Seq::new(k as nat, |j: int| 0u8),
        decreases 20 - k,
    {
        out.push(0u8);
        assert(framed + Seq::new((k + 1) as nat, |j: int| 0u8) =~= (framed + Seq::new(k as nat, |j: int| 0u8)).push(0u8));
        k = k + 1;
    }
    out
}

/// The Keccak-256 digest of a byte string.
pub uninterp spec fn keccak256(bytes: Seq<u8>) -> Seq<u8>;

/// Calls `sha3::Keccak256::digest`: the 32-byte Keccak-256 digest of
/// `bytes`, named `keccak256`.
#[verifier::external_body]
fn keccak256_digest(bytes: &[u8]) -> (r: Vec<u8>)
    ensures
        r@ == keccak256(bytes@),
        r@.len() == 32,
{
    <sha3::Keccak256 as sha3::Digest>::digest(bytes).to_vec()
}

/// The connection id that signs an action: the Keccak-256 digest of the
/// action's encoded bytes framed with its nonce, as `connection_id_input`
/// says.
pub fn connection_id(action: &[u8], nonce: u64) -> (r: Vec<u8>)
    ensures
        r@ == keccak256(connection_id_input(action@, nonce)),
        r@.len() == 32,
{
    let framed = action_hash_input(action, nonce);
    keccak256_digest(framed.as_slice())
}

/// The lower-case hexadecimal digit of `d` (below sixteen).
pub open spec fn hex_char(d: int) -> char {
    if d < 10 { (48 + d) as char } else { (87 + d) as char }
}

/// The lower-case hexadecimal text of a byte string, two digits a byte, as
/// `hex::encode` writes it.
pub open spec fn hex_text(bytes: Seq<u8>) -> Seq<char>
    decreases bytes.len(),
{
    if bytes.len() == 0 {
        Seq::empty()
    } else {
        let last = bytes.last();
        hex_text(bytes.drop_last()) + seq![hex_char(last as int / 16), hex_char(last as int % 16)]
    }
}

/// A hexadecimal digit is `0`..`9` for the values below ten and `a`..`f`
/// for ten to fifteen.
pub proof fn lemma_hex_char_digits(d: int)
    requires
        0 <= d < 16,
    ensures
        d < 10 ==> '0' <= hex_char(d) <= '9' && hex_char(d) as int - '0' as int == d,
        d >= 10 ==> 'a' <= hex_char(d) <= 'f' && hex_char(d) as int - 'a' as int + 10 == d,
{
}

/// The hexadecimal text of a byte string has two digits a byte, in order:
/// the high half of the byte, then the low half.
pub proof fn lemma_hex_text_digits(bytes: Seq<u8>)
    ensures
        hex_text(bytes).len() == 2 * bytes.len(),
        forall|i: int| 0 <= i < bytes.len() ==> {
            &&& #[trigger] hex_text(bytes)[2 * i] == hex_char(bytes[i] as int / 16)
            &&& hex_text(bytes)[2 * i + 1] == hex_char(bytes[i] as int % 16)
        },
    decreases bytes.len(),
{
    if bytes.len() > 0 {
        let init = bytes.drop_last();
        lemma_hex_text_digits(init);
        assert forall|i: int| 0 <= i < bytes.len() implies {
            &&& #[trigger] hex_text(bytes)[2 * i] == hex_char(bytes[i] as int / 16)
            &&& hex_text(bytes)[2 * i + 1] == hex_char(bytes[i] as int % 16)
        } by {
            if i < init.len() {
                assert(init[i] == bytes[i]);
                assert(hex_text(init)[2 * i] == hex_char(init[i] as int / 16));
            }
        }
    }
}

/// The text of one hexadecimal digit.
fn hex_digit(d: u8) -> (r: &'static str)
    requires
        d < 16,
    ensures
        r@ == seq![hex_char(d as int)],
{
    let digits = "0123456789abcdef";
    proof {
        reveal_strlit("0123456789abcdef");
    }
    let r = digits.substring_char(d as usize, d as usize + 1);
    assert(r@ =~= seq![hex_char(d as int)]);
    r
}

/// Writes a byte string as lower-case hexadecimal, as `hex_text` says.
pub fn hex_encode(bytes: &[u8]) -> (r: String)
    ensures
        r@ == hex_text(bytes@),
{
    let mut out = String::new();
    let mut i: usize = 0;
    while i < bytes.len()
        invariant
            i <= bytes@.len(),
            out@ == hex_text(bytes@.take(i as int)),
        decreases bytes.len() - i,
    {
        let b = bytes[i];
        out.append(hex_digit(b / 16));
        out.append(hex_digit(b % 16));
        assert(bytes@.take(i + 1).drop_last() =~= bytes@.take(i as int));
        assert(bytes@.take(i + 1).last() == b);
        i = i + 1;
    }
    assert(bytes@.take(i as int) =~= bytes@);
    out
}

/// The source letter of an agent signature: `a` for the mainnet API (a base
/// URL naming `api.hyperliquid.xyz`), `b` otherwise.
pub open spec fn agent_source(base_url: Seq<char>) -> char {
    if text_contains(base_url, "api.hyperliquid.xyz"@) { 'a' } else { 'b' }
}

/// The agent message that signs a connection id: the source letter, a
/// colon, and the id in lower-case hexadecimal.
pub open spec fn agent_message_text(base_url: Seq<char>, connection_id: Seq<u8>) -> Seq<char> {
    seq![agent_source(base_url), ':'] + hex_text(connection_id)
}

/// Writes the agent message of a connection id for the API at `base_url`,
/// as `agent_message_text` says.
pub fn agent_message(base_url: &str, connection_id: &[u8]) -> (r: String)
    ensures
        r@ == agent_message_text(base_url@, connection_id@),
        r@.len() == 2 + 2 * connection_id@.len(),
        r@[0] == (if text_contains(base_url@, "api.hyperliquid.xyz"@) { 'a' } else { 'b' }),
        r@[1] == ':',
        forall|i: int| #![trigger connection_id@[i]] 0 <= i < connection_id@.len() ==> {
            &&& r@[2 + 2 * i] == hex_char(connection_id@[i] as int / 16)
            &&& r@[3 + 2 * i] == hex_char(connection_id@[i] as int % 16)
        },
{
    let mainnet = contains_text(base_url, "api.hyperliquid.xyz");
    let mut message = if mainnet {
        proof { reveal_strlit("a:"); }
        owned("a:")
    } else {
        proof { reveal_strlit("b:"); }
        owned("b:")
    };
    let hex = hex_encode(connection_id);
    message.append(hex.as_str());
    proof {
        lemma_hex_text_digits(connection_id@);
        assert forall|i: int| #![trigger connection_id@[i]] 0 <= i < connection_id@.len() implies {
            &&& message@[2 + 2 * i] == hex_char(connection_id@[i] as int / 16)
            &&& message@[3 + 2 * i] == hex_char(connection_id@[i] as int % 16)
        } by {
            assert(message@[2 + 2 * i] == hex@[2 * i]);
            assert(message@[3 + 2 * i] == hex@[2 * i + 1]);
            assert(hex_text(connection_id@)[2 * i] == hex_char(connection_id@[i] as int / 16));
        }
    }
    message
}

/// The hash that the wallet signs for a connection id: the Keccak-256
/// digest of the agent message's UTF-8 bytes.
pub fn agent_message_hash(base_url: &str, connection_id: &[u8]) -> (r: Vec<u8>)
    ensures
        r@ == keccak256(encode_utf8(agent_message_text(base_url@, connection_id@))),
        r@.len() == 32,
{
    let message = agent_message(base_url, connection_id);
    keccak256_digest(message.as_str().as_bytes())
}

} // verus!

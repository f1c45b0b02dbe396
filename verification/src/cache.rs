//! The dedup counter and CPR pair cache: key construction, the
//! count-against-threshold gate, and validation of what the cache
//! hands back. The cache round-trips themselves are network calls
//! made by the surrounding application; every value that crosses
//! that boundary is built and checked here.

use vstd::prelude::*;

verus! {

/// Dedup entries for ADS-B packets expire this long after first
/// sighting; the TTL is set on create and not refreshed on increment.
pub const CACHE_EXPIRE_MS_ADSB: u32 = 10000;

/// Dedup entries for Remote-ID packets expire this long after first
/// sighting.
pub const CACHE_EXPIRE_MS_NETRID: u32 = 10000;

/// CPR lat/lon halves await their opposite-parity partner this long.
pub const CACHE_EXPIRE_MS_AIRCRAFT_CPR: u32 = 1000;

/// Number of times a packet must be received from unique senders
/// before it is considered valid.
pub const N_REPORTERS_NEEDED: u32 = 1;

/// Represents errors that can occur during cache operations.
#[derive(Debug, Copy, Clone, PartialEq, Eq, Structural)]
pub enum CacheError {
    /// Could not build configuration for cache.
    CouldNotConfigure,
    /// Could not connect to the cache pool.
    CouldNotConnect,
    /// The operation on the cache failed.
    OperationFailed,
}

impl CacheError {
    /// Human-readable description of the error.
    pub fn message(&self) -> (r: String)
        ensures
            self is CouldNotConfigure ==> r@ == "Could not build configuration for cache."@,
            self is CouldNotConnect ==> r@ == "Could not connect to redis pool."@,
            self is OperationFailed ==> r@ == "The operation on the redis cache failed."@,
    {
        match self {
            CacheError::CouldNotConfigure => String::from_str(
                "Could not build configuration for cache.",
            ),
            CacheError::CouldNotConnect => String::from_str("Could not connect to redis pool."),
            CacheError::OperationFailed => String::from_str(
                "The operation on the redis cache failed.",
            ),
        }
    }
}

/// The lowercase hexadecimal digit of a value under 16.
pub open spec fn spec_hex_digit(n: u8) -> char {
    if n == 0 {
        '0'
    } else if n == 1 {
        '1'
    } else if n == 2 {
        '2'
    } else if n == 3 {
        '3'
    } else if n == 4 {
        '4'
    } else if n == 5 {
        '5'
    } else if n == 6 {
        '6'
    } else if n == 7 {
        '7'
    } else if n == 8 {
        '8'
    } else if n == 9 {
        '9'
    } else if n == 10 {
        'a'
    } else if n == 11 {
        'b'
    } else if n == 12 {
        'c'
    } else if n == 13 {
        'd'
    } else if n == 14 {
        'e'
    } else {
        'f'
    }
}

/// Each byte as two lowercase hexadecimal digits, high nibble first.
pub open spec fn spec_hex_bytes(bytes: Seq<u8>) -> Seq<char>
    decreases bytes.len(),
{
    if bytes.len() == 0 {
        Seq::empty()
    } else {
        spec_hex_bytes(bytes.drop_last()) + seq![
            spec_hex_digit(bytes.last() / 16),
            spec_hex_digit(bytes.last() % 16),
        ]
    }
}

/// The one-character string of a hexadecimal digit.
fn hex_digit_str(n: u8) -> (r: &'static str)
    requires
        n < 16,
    ensures
        r@ =~= seq![spec_hex_digit(n)],
{
    proof {
        reveal_strlit("0");
        reveal_strlit("1");
        reveal_strlit("2");
        reveal_strlit("3");
        reveal_strlit("4");
        reveal_strlit("5");
        reveal_strlit("6");
        reveal_strlit("7");
        reveal_strlit("8");
        reveal_strlit("9");
        reveal_strlit("a");
        reveal_strlit("b");
        reveal_strlit("c");
        reveal_strlit("d");
        reveal_strlit("e");
        reveal_strlit("f");
    }
    match n {
        0 => "0",
        1 => "1",
        2 => "2",
        3 => "3",
        4 => "4",
        5 => "5",
        6 => "6",
        7 => "7",
        8 => "8",
        9 => "9",
        10 => "a",
        11 => "b",
        12 => "c",
        13 => "d",
        14 => "e",
        _ => "f",
    }
}

/// Convert bytes to a cache key: the payload hex-encoded, two
/// lowercase digits per byte.
pub fn bytes_to_key(bytes: &[u8]) -> (r: String)
    ensures
        r@ == spec_hex_bytes(bytes@),
        r@.len() == 2 * bytes@.len(),
{
    let mut out = String::new();
    let mut i: usize = 0;
    proof {
        lemma_hex_bytes_len(bytes@);
    }
    while i < bytes.len()
        invariant
            i <= bytes@.len(),
            out@ == spec_hex_bytes(bytes@.take(i as int)),
            out@.len() == 2 * i,
        decreases bytes@.len() - i,
    {
        let b: u8 = bytes[i];
        proof {
            assert(b / 16 < 16 && b % 16 < 16);
        }
        out.append(hex_digit_str(b / 16));
        out.append(hex_digit_str(b % 16));
        i += 1;
        proof {
            assert(bytes@.take(i as int).drop_last() =~= bytes@.take(i - 1));
            lemma_hex_bytes_len(bytes@.take(i as int));
        }
    }
    proof {
        assert(bytes@.take(bytes@.len() as int) =~= bytes@);
    }
    out
}

/// The hex encoding is two characters per byte.
pub proof fn lemma_hex_bytes_len(bytes: Seq<u8>)
    ensures
        spec_hex_bytes(bytes).len() == 2 * bytes.len(),
    decreases bytes.len(),
{
    if bytes.len() > 0 {
        lemma_hex_bytes_len(bytes.drop_last());
    }
}

/// The shortest lowercase hexadecimal form of a 32-bit value, as the
/// formatter writes it into CPR cache keys.
pub open spec fn spec_u32_hex(n: u32) -> Seq<char>
    decreases n,
{
    if n < 16 {
        seq![spec_hex_digit(n as u8)]
    } else {
        spec_u32_hex(n / 16) + seq![spec_hex_digit((n % 16) as u8)]
    }
}

/// Format a 32-bit value in its shortest lowercase hexadecimal form.
pub fn u32_to_hex(n: u32) -> (r: String)
    ensures
        r@ == spec_u32_hex(n),
    decreases n,
{
    if n < 16 {
        String::from_str(hex_digit_str(n as u8))
    } else {
        let prefix = u32_to_hex(n / 16);
        prefix.concat(hex_digit_str((n % 16) as u8))
    }
}

/// The decimal form of a 32-bit value, as the formatter writes CPR
/// halves into the cache.
pub open spec fn spec_u32_dec(n: u32) -> Seq<char>
    decreases n,
{
    if n < 10 {
        seq![spec_hex_digit(n as u8)]
    } else {
        spec_u32_dec(n / 10) + seq![spec_hex_digit((n % 10) as u8)]
    }
}

/// Format a 32-bit value in decimal.
pub fn u32_to_decimal(n: u32) -> (r: String)
    ensures
        r@ == spec_u32_dec(n),
    decreases n,
{
    if n < 10 {
        String::from_str(hex_digit_str(n as u8))
    } else {
        let prefix = u32_to_decimal(n / 10);
        prefix.concat(hex_digit_str((n % 10) as u8))
    }
}

/// Whether every character of a string is a decimal digit.
pub open spec fn spec_all_digits(s: Seq<char>) -> bool {
    forall|i: int| 0 <= i < s.len() ==> '0' <= #[trigger] s[i] <= '9'
}

/// The number a string of decimal digits denotes.
pub open spec fn spec_dec_value(s: Seq<char>) -> int
    decreases s.len(),
{
    if s.len() == 0 {
        0
    } else {
        spec_dec_value(s.drop_last()) * 10 + (s.last() as int - '0' as int)
    }
}

/// A digit string denotes a number that is not negative.
proof fn lemma_dec_value_nonneg(s: Seq<char>)
    requires
        spec_all_digits(s),
    ensures
        spec_dec_value(s) >= 0,
    decreases s.len(),
{
    if s.len() > 0 {
        assert(spec_all_digits(s.drop_last())) by {
            assert(forall|i: int|
                0 <= i < s.len() - 1 ==> s.drop_last()[i] == #[trigger] s[i]);
        }
        lemma_dec_value_nonneg(s.drop_last());
    }
}

/// A longer digit string never denotes a smaller number.
proof fn lemma_dec_value_monotonic(s: Seq<char>, i: int)
    requires
        0 <= i <= s.len(),
        spec_all_digits(s),
    ensures
        spec_dec_value(s.take(i)) <= spec_dec_value(s),
    decreases s.len() - i,
{
    if i == s.len() {
        assert(s.take(i) =~= s);
    } else {
        lemma_dec_value_monotonic(s, i + 1);
        assert(s.take(i + 1).drop_last() =~= s.take(i));
        assert(spec_all_digits(s.take(i))) by {
            assert(forall|j: int|
                0 <= j < i ==> s.take(i)[j] == #[trigger] s[j]);
        }
        lemma_dec_value_nonneg(s.take(i));
        assert(spec_dec_value(s.take(i)) <= spec_dec_value(s.take(i + 1)));
    }
}

/// Parse a decimal string as a 32-bit value, as the cache client
/// parses CPR halves read back from the cache: exactly the non-empty
/// all-digit strings denoting a value that fits parse successfully.
pub fn parse_u32_decimal(s: &str) -> (r: Option<u32>)
    ensures
        r matches Some(v) ==> s@.len() > 0 && spec_all_digits(s@) && v == spec_dec_value(s@),
        r is Some <==> (s@.len() > 0 && spec_all_digits(s@) && spec_dec_value(s@) < 0x100000000),
{
    let n: usize = s.unicode_len();
    if n == 0 {
        return None;
    }
    let mut value: u32 = 0;
    let mut i: usize = 0;
    while i < n
        invariant
            0 < n == s@.len(),
            i <= n,
            spec_all_digits(s@.take(i as int)),
            value == spec_dec_value(s@.take(i as int)),
        decreases n - i,
    {
        let c: char = s.get_char(i);
        if c < '0' || c > '9' {
            proof {
                assert(!spec_all_digits(s@));
            }
            return None;
        }
        let d: u32 = (c as u32) - 48;
        if value > (0xffffffff - d) / 10 {
            proof {
                assert(s@.take(i + 1).drop_last() =~= s@.take(i as int));
                assert(spec_dec_value(s@.take(i + 1)) == value * 10 + d);
                if spec_all_digits(s@) {
                    lemma_dec_value_monotonic(s@, i + 1);
                    assert(spec_dec_value(s@) >= value * 10 + d >= 0x100000000);
                }
            }
            return None;
        }
        value = value * 10 + d;
        i += 1;
        proof {
            assert(s@.take(i as int).drop_last() =~= s@.take(i - 1));
        }
    }
    proof {
        assert(s@.take(n as int) =~= s@);
    }
    Some(value)
}

/// The folder-prefixed form of a cache key: the configured folder,
/// a colon, then the key, partitioning namespaces across services.
pub fn folder_key(folder: &str, key: &str) -> (r: String)
    ensures
        r@ == folder@ + ":"@ + key@,
{
    let mut out = String::from_str(folder);
    out.append(":");
    out.append(key);
    out
}


/// One dedup entry as the cache maintains it: the count of sightings
/// and the instant the entry expires.
#[derive(Debug, Clone, Copy, PartialEq, Eq, Structural)]
pub struct DedupEntry {
    /// How many times the key was seen this epoch; always at least 1.
    pub count: u32,
    /// When the entry expires, in milliseconds since the epoch.
    pub expires_at_ms: u64,
}

/// The counter behind one dedup key, as the ingest path relies on
/// it: an atomic increment-and-set-expiry. The distributed cache
/// maintains an entry per key with exactly these transitions; this
/// model states that contract and proves what follows from it.
#[derive(Debug, Clone, Copy, PartialEq, Eq, Structural)]
pub struct DedupCounter {
    /// The live entry, if one exists.
    pub entry: Option<DedupEntry>,
}

impl DedupCounter {
    /// A counter whose key has never been seen.
    pub fn new() -> (r: DedupCounter)
        ensures
            r.entry is None,
    {
        DedupCounter { entry: None }
    }

    /// One sighting of the key. Within an epoch the counter hands
    /// out consecutive values, so its k-th call returns k; the count
    /// is never decremented and the expiry is set on create and not
    /// refreshed, so the entry lapses a fixed interval after the
    /// first sighting regardless of repeat rate, and the next call
    /// after the expiry starts a fresh epoch at 1.
    pub fn increment(&mut self, now_ms: u64, ttl_ms: u32) -> (r: u32)
        requires
            old(self).entry matches Some(e) ==> e.count < 0xFFFFFFFFu32,
            now_ms + ttl_ms < 0xFFFFFFFFFFFFFFFF,
        ensures
            r >= 1,
            (match old(self).entry {
                Some(e) => now_ms >= e.expires_at_ms,
                None => true,
            }) ==> r == 1 && final(self).entry == Some(
                DedupEntry { count: 1, expires_at_ms: (now_ms + ttl_ms) as u64 },
            ),
            old(self).entry matches Some(e) ==> (now_ms < e.expires_at_ms ==> r == e.count + 1
                && final(self).entry == Some(
                DedupEntry { count: (e.count + 1) as u32, expires_at_ms: e.expires_at_ms },
            )),
    {
        match self.entry {
            Some(e) if now_ms < e.expires_at_ms => {
                let count = e.count + 1;
                self.entry = Some(DedupEntry { count, expires_at_ms: e.expires_at_ms });
                count
            },
            _ => {
                self.entry = Some(DedupEntry { count: 1, expires_at_ms: now_ms + ttl_ms as u64 });
                1
            },
        }
    }
}

/// Outcome of comparing a dedup count against the reporter threshold.
#[derive(Debug, Copy, Clone, PartialEq, Eq, Structural)]
pub enum ReporterGate {
    /// The count is below the threshold, which the counter contract
    /// rules out: an internal error.
    Impossible,
    /// The packet was already confirmed; acknowledge with the count
    /// and do no further processing.
    AlreadyConfirmed,
    /// The count met the threshold exactly: decode and fan out.
    Process,
}

/// Compare a dedup count against [`N_REPORTERS_NEEDED`]: below is
/// impossible (the counter never returns less than one), above means
/// the packet was already processed, and exactly at the threshold
/// means this sighting does the work.
pub fn reporter_gate(count: u32) -> (r: ReporterGate)
    ensures
        r is Impossible <==> count < N_REPORTERS_NEEDED,
        r is AlreadyConfirmed <==> count > N_REPORTERS_NEEDED,
        r is Process <==> count == N_REPORTERS_NEEDED,
{
    if count < N_REPORTERS_NEEDED {
        ReporterGate::Impossible
    } else if count > N_REPORTERS_NEEDED {
        ReporterGate::AlreadyConfirmed
    } else {
        ReporterGate::Process
    }
}

/// Validate the raw integer an atomic increment returned: the counter
/// contract promises a value of at least one, and the count is carried
/// as 32 bits, so anything below one or beyond that range is a
/// protocol error. Every certified count is therefore at least one.
pub fn increment_count(value: i64) -> (r: Result<u32, CacheError>)
    ensures
        r is Ok <==> 1 <= value <= 0xffffffff,
        r matches Ok(c) ==> c == value,
        r matches Err(e) ==> e is OperationFailed,
{
    if value < 1 || value > 0xffffffff {
        Err(CacheError::OperationFailed)
    } else {
        Ok(value as u32)
    }
}

/// Validate a multi-key read: the cache must hand back exactly as
/// many values as were asked for, or the operation failed.
pub fn exact_count<T>(values: Vec<T>, expected: usize) -> (r: Result<Vec<T>, CacheError>)
    ensures
        r is Ok <==> values@.len() == expected,
        r matches Ok(v) ==> v == values,
        r matches Err(e) ==> e is OperationFailed,
{
    if values.len() != expected {
        Err(CacheError::OperationFailed)
    } else {
        Ok(values)
    }
}

} // verus!

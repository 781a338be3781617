//! Policy selection, storage keys, and dispatch to the four rate-limit policies.
use vstd::prelude::*;
use vstd::string::*;
use vstd::utf8::*;
use arrayvec::ArrayString;
use crate::algorithm::fixed_window::FixedWindow;
use crate::algorithm::leaky_bucket::LeakyBucket;
use crate::algorithm::sliding_window::SlidingWindow;
use crate::bucket::Bucket;
use crate::error::ShieldError;
use crate::storage::{limits_result, StoreWrite};

verus! {

pub const TRAFFIC_POLICY_KEY_PREFIX: &'static str = "tp";

/// The policy chosen for a request, with its capacity and its period in seconds.
#[derive(Debug, Clone, Copy, PartialEq, Eq, Structural)]
pub enum PolicyConfig {
    TokenBucket { capacity: i64, period: i64 },
    LeakyBucket { capacity: i64, period: i64 },
    FixedWindow { capacity: i64, period: i64 },
    SlidingWindow { capacity: i64, period: i64 },
}

/// The two-letter namespace of each policy.
pub open spec fn suffix_chars(cfg: PolicyConfig) -> Seq<char> {
    match cfg {
        PolicyConfig::TokenBucket { .. } => seq!['t', 'b'],
        PolicyConfig::LeakyBucket { .. } => seq!['l', 'b'],
        PolicyConfig::FixedWindow { .. } => seq!['f', 'w'],
        PolicyConfig::SlidingWindow { .. } => seq!['s', 'w'],
    }
}

impl PolicyConfig {
    pub open spec fn capacity_spec(self) -> i64 {
        match self {
            PolicyConfig::TokenBucket { capacity, .. } => capacity,
            PolicyConfig::LeakyBucket { capacity, .. } => capacity,
            PolicyConfig::FixedWindow { capacity, .. } => capacity,
            PolicyConfig::SlidingWindow { capacity, .. } => capacity,
        }
    }

    pub open spec fn period_spec(self) -> i64 {
        match self {
            PolicyConfig::TokenBucket { period, .. } => period,
            PolicyConfig::LeakyBucket { period, .. } => period,
            PolicyConfig::FixedWindow { period, .. } => period,
            PolicyConfig::SlidingWindow { period, .. } => period,
        }
    }

    /// The namespace that keeps this policy's state apart from the others'.
    pub fn suffix(&self) -> (r: &'static str)
        ensures
            r@ == suffix_chars(*self),
    {
        proof {
            reveal_strlit("tb");
            reveal_strlit("lb");
            reveal_strlit("fw");
            reveal_strlit("sw");
        }
        match self {
            PolicyConfig::TokenBucket { .. } => "tb",
            PolicyConfig::LeakyBucket { .. } => "lb",
            PolicyConfig::FixedWindow { .. } => "fw",
            PolicyConfig::SlidingWindow { .. } => "sw",
        }
    }
}

/// The internal storage key `tp:<suffix>:<external key>`.
pub open spec fn key_chars(external_key: Seq<char>, suffix: Seq<char>) -> Seq<char> {
    seq!['t', 'p', ':'] + suffix + seq![':'] + external_key
}

/// The most bytes a key may have to be built without heap allocation.
pub const STACK_KEY_CAPACITY: usize = 128;

#[verifier::external_type_specification]
#[verifier::external_body]
pub struct ExArrayString<const CAP: usize>(ArrayString<CAP>);

/// What a stack key buffer holds.
pub uninterp spec fn stack_chars(buf: ArrayString<128>) -> Seq<char>;

/// Relies on `arrayvec::ArrayString::new`: a new buffer is empty.
#[verifier::external_body]
fn stack_buffer_new() -> (r: ArrayString<128>)
    ensures
        stack_chars(r) == Seq::<char>::empty(),
{
    ArrayString::<128>::new()
}

/// Relies on `arrayvec::ArrayString::try_push_str`: the text is appended when its
/// bytes fit in the room left, and the buffer is left as it was otherwise.
#[verifier::external_body]
fn stack_push(buf: &mut ArrayString<128>, s: &str) -> (r: bool)
    ensures
        r == (encode_utf8(stack_chars(*old(buf))).len() + s.spec_bytes().len() <= 128),
        r ==> stack_chars(*final(buf)) == stack_chars(*old(buf)) + s@,
        !r ==> stack_chars(*final(buf)) == stack_chars(*old(buf)),
{
    buf.try_push_str(s).is_ok()
}

/// Relies on `arrayvec::ArrayString::as_str`: the text held.
#[verifier::external_body]
fn stack_as_str(buf: &ArrayString<128>) -> (r: &str)
    ensures
        r@ == stack_chars(*buf),
{
    buf.as_str()
}

/// Storage for a built key: on the stack when it fits, on the heap otherwise.
pub enum KeyBuffer {
    Stack(ArrayString<128>),
    Heap(String),
}

impl KeyBuffer {
    pub open spec fn chars(&self) -> Seq<char> {
        match self {
            KeyBuffer::Stack(buf) => stack_chars(*buf),
            KeyBuffer::Heap(s) => s@,
        }
    }

    /// The key, whichever storage holds it.
    pub fn as_str(&self) -> (r: &str)
        ensures
            r@ == self.chars(),
    {
        match self {
            KeyBuffer::Stack(buf) => stack_as_str(buf),
            KeyBuffer::Heap(s) => s.as_str(),
        }
    }
}

/// The UTF-8 bytes of two texts in a row are the bytes of each in a row.
pub proof fn lemma_encode_utf8_concat(a: Seq<char>, b: Seq<char>)
    ensures
        encode_utf8(a + b) == encode_utf8(a) + encode_utf8(b),
    decreases a.len(),
{
    if a.len() == 0 {
        assert(a + b =~= b);
        assert(encode_utf8(a) =~= Seq::<u8>::empty());
        assert(encode_utf8(a) + encode_utf8(b) =~= encode_utf8(b));
    } else {
        lemma_encode_utf8_concat(a.drop_first(), b);
        assert((a + b).drop_first() =~= a.drop_first() + b);
        assert((a + b)[0] == a[0]);
        let e = encode_scalar(a[0] as u32);
        assert(encode_utf8(a + b) == e + encode_utf8(a.drop_first() + b));
        assert(encode_utf8(a) == e + encode_utf8(a.drop_first()));
        assert(e + (encode_utf8(a.drop_first()) + encode_utf8(b)) =~= (e + encode_utf8(
            a.drop_first(),
        )) + encode_utf8(b));
    }
}

/// Builds the internal storage key, on the stack when its bytes fit in
/// `STACK_KEY_CAPACITY` and on the heap otherwise.
pub fn build_key(external_key: &str, suffix: &str) -> (r: KeyBuffer)
    ensures
        r.chars() == key_chars(external_key@, suffix@),
        (r is Stack) <==> encode_utf8(key_chars(external_key@, suffix@)).len()
            <= STACK_KEY_CAPACITY,
{
    proof {
        reveal_strlit("tp");
        reveal_strlit(":");
    }
    let ghost full = key_chars(external_key@, suffix@);
    let ghost with_prefix = seq!['t', 'p'];
    let ghost with_colon = with_prefix + seq![':'];
    let ghost with_suffix = with_colon + suffix@;
    let ghost before_key = with_suffix + seq![':'];
    assert(full =~= before_key + external_key@);
    proof {
        lemma_encode_utf8_concat(with_prefix, seq![':']);
        lemma_encode_utf8_concat(with_colon, suffix@);
        lemma_encode_utf8_concat(with_suffix, seq![':']);
        lemma_encode_utf8_concat(before_key, external_key@);
        assert(Seq::<char>::empty() + with_prefix =~= with_prefix);
    }
    let mut buf = stack_buffer_new();
    assert(TRAFFIC_POLICY_KEY_PREFIX@ =~= with_prefix);
    let mut fits = stack_push(&mut buf, TRAFFIC_POLICY_KEY_PREFIX);
    if fits {
        assert(stack_chars(buf) =~= with_prefix);
        fits = stack_push(&mut buf, ":");
    }
    if fits {
        assert(stack_chars(buf) =~= with_colon);
        fits = stack_push(&mut buf, suffix);
    }
    if fits {
        assert(stack_chars(buf) =~= with_suffix);
        fits = stack_push(&mut buf, ":");
    }
    if fits {
        assert(stack_chars(buf) =~= before_key);
        fits = stack_push(&mut buf, external_key);
    }
    if fits {
        assert(stack_chars(buf) =~= full);
        KeyBuffer::Stack(buf)
    } else {
        // The key does not fit in the stack buffer: build it on the heap.
        assert(":"@ =~= seq![':']);
        assert(encode_utf8(before_key).len() <= encode_utf8(full).len());
        assert(encode_utf8(with_suffix).len() <= encode_utf8(before_key).len());
        assert(encode_utf8(with_colon).len() <= encode_utf8(with_suffix).len());
        assert(encode_utf8(with_prefix).len() <= encode_utf8(with_colon).len());
        assert(encode_utf8(full).len() > 128);
        let mut key = String::from_str(TRAFFIC_POLICY_KEY_PREFIX);
        key.append(":");
        key.append(suffix);
        key.append(":");
        key.append(external_key);
        assert(key@ =~= full);
        KeyBuffer::Heap(key)
    }
}

/// The one operation that every rate-limit policy offers.
pub trait TrafficPolicyExecutor {
    spec fn well_formed(&self) -> bool;

    /// The most that `execute` may report as remaining.
    spec fn limit(&self) -> int;

    /// The write that the last acceptance asks of the store.
    spec fn pending_write(&self) -> Option<StoreWrite>;

    /// What `execute(tokens)` returns.
    spec fn outcome(&self, tokens: i64) -> Result<i64, ShieldError>;

    /// Consumes `tokens` units: returns the remaining capacity, or `-1` on
    /// denial. A denial asks the store for no write.
    fn execute(&mut self, tokens: i64) -> (r: Result<i64, ShieldError>)
        requires
            old(self).well_formed(),
        ensures
            final(self).well_formed(),
            final(self).limit() == old(self).limit(),
            r == old(self).outcome(tokens),
            r matches Ok(v) ==> v == -1 || 0 <= v <= old(self).limit(),
            r matches Ok(v) && v == -1 ==> final(self).pending_write() == old(self).pending_write(),
    ;
}

/// An executor for one of the four policies.
pub enum Executor {
    TokenBucket(Bucket),
    LeakyBucket(LeakyBucket),
    FixedWindow(FixedWindow),
    SlidingWindow(SlidingWindow),
}

impl Executor {
    /// Hands over the write that the last acceptance asks of the store.
    pub fn take_write(&mut self) -> (r: Option<StoreWrite>)
        ensures
            r == old(self).pending_write(),
            final(self).pending_write() is None,
            final(self).well_formed() == old(self).well_formed(),
            final(self).limit() == old(self).limit(),
    {
        match self {
            Executor::TokenBucket(b) => b.write.take(),
            Executor::LeakyBucket(b) => b.write.take(),
            Executor::FixedWindow(w) => w.write.take(),
            Executor::SlidingWindow(w) => w.write.take(),
        }
    }
}

impl TrafficPolicyExecutor for Executor {
    open spec fn well_formed(&self) -> bool {
        match self {
            Executor::TokenBucket(b) => b.well_formed(),
            Executor::LeakyBucket(b) => b.well_formed(),
            Executor::FixedWindow(w) => w.well_formed(),
            Executor::SlidingWindow(w) => w.well_formed(),
        }
    }

    open spec fn limit(&self) -> int {
        match self {
            Executor::TokenBucket(b) => b.limit(),
            Executor::LeakyBucket(b) => b.limit(),
            Executor::FixedWindow(w) => w.limit(),
            Executor::SlidingWindow(w) => w.limit(),
        }
    }

    open spec fn pending_write(&self) -> Option<StoreWrite> {
        match self {
            Executor::TokenBucket(b) => b.pending_write(),
            Executor::LeakyBucket(b) => b.pending_write(),
            Executor::FixedWindow(w) => w.pending_write(),
            Executor::SlidingWindow(w) => w.pending_write(),
        }
    }

    open spec fn outcome(&self, tokens: i64) -> Result<i64, ShieldError> {
        match self {
            Executor::TokenBucket(b) => b.outcome(tokens),
            Executor::LeakyBucket(b) => b.outcome(tokens),
            Executor::FixedWindow(w) => w.outcome(tokens),
            Executor::SlidingWindow(w) => w.outcome(tokens),
        }
    }

    fn execute(&mut self, tokens: i64) -> (r: Result<i64, ShieldError>) {
        match self {
            Executor::TokenBucket(b) => b.execute(tokens),
            Executor::LeakyBucket(b) => b.execute(tokens),
            Executor::FixedWindow(w) => w.execute(tokens),
            Executor::SlidingWindow(w) => w.execute(tokens),
        }
    }
}

/// Wraps a loaded policy, or passes its error on.
pub open spec fn lift<T>(r: Result<T, ShieldError>, f: spec_fn(T) -> Executor) -> Result<
    Executor,
    ShieldError,
> {
    match r {
        Ok(x) => Ok(f(x)),
        Err(e) => Err(e),
    }
}

/// The executor that `create_executor` gives for what the store holds.
pub open spec fn executor_for(
    cfg: PolicyConfig,
    ttl: i64,
    stored: Option<&str>,
    now_ms: Option<i64>,
) -> Result<Executor, ShieldError> {
    match cfg {
        PolicyConfig::TokenBucket { capacity, period } => lift(
            Bucket::loaded(capacity, period, ttl, stored),
            |b: Bucket| Executor::TokenBucket(b),
        ),
        PolicyConfig::LeakyBucket { capacity, period } => lift(
            LeakyBucket::loaded(capacity, period, ttl, stored),
            |b: LeakyBucket| Executor::LeakyBucket(b),
        ),
        PolicyConfig::FixedWindow { capacity, period } => lift(
            FixedWindow::loaded(capacity, period, ttl, stored),
            |w: FixedWindow| Executor::FixedWindow(w),
        ),
        PolicyConfig::SlidingWindow { capacity, period } => match limits_result(capacity, period) {
            Err(e) => Err(e),
            Ok(_) => match now_ms {
                None => Err(ShieldError::TimeUnavailable),
                Some(now) => lift(
                    SlidingWindow::loaded(capacity, period, now, stored),
                    |w: SlidingWindow| Executor::SlidingWindow(w),
                ),
            },
        },
    }
}

/// Builds the executor for a policy from what the store holds for its key:
/// the remaining time-to-live in milliseconds (`-2` absent, `-1` no expiry),
/// the stored text, and, for the sliding window, the store clock's reading in
/// milliseconds (`None` when the clock gave none).
pub fn create_executor(cfg: PolicyConfig, ttl: i64, stored: Option<&str>, now_ms: Option<i64>) -> (r:
    Result<Executor, ShieldError>)
    ensures
        r == executor_for(cfg, ttl, stored, now_ms),
        r matches Ok(e) ==> e.well_formed() && e.limit() == cfg.capacity_spec()
            && e.pending_write() is None,
{
    match cfg {
        PolicyConfig::TokenBucket { capacity, period } => match Bucket::new(
            capacity,
            period,
            ttl,
            stored,
        ) {
            Ok(b) => Ok(Executor::TokenBucket(b)),
            Err(e) => Err(e),
        },
        PolicyConfig::LeakyBucket { capacity, period } => match LeakyBucket::new(
            capacity,
            period,
            ttl,
            stored,
        ) {
            Ok(b) => Ok(Executor::LeakyBucket(b)),
            Err(e) => Err(e),
        },
        PolicyConfig::FixedWindow { capacity, period } => match FixedWindow::new(
            capacity,
            period,
            ttl,
            stored,
        ) {
            Ok(w) => Ok(Executor::FixedWindow(w)),
            Err(e) => Err(e),
        },
        PolicyConfig::SlidingWindow { capacity, period } => {
            if let Err(e) = crate::storage::check_limits(capacity, period) {
                return Err(e);
            }
            let now = match now_ms {
                Some(now) => now,
                None => return Err(ShieldError::TimeUnavailable),
            };
            match SlidingWindow::new(capacity, period, now, stored) {
                Ok(w) => Ok(Executor::SlidingWindow(w)),
                Err(e) => Err(e),
            }
        },
    }
}

} // verus!

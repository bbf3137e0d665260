//! The GraphQL response cache: how a request is turned into a cache key, how
//! much an entry weighs, when a response may be stored, and the per-request
//! count of mutation fields that leave cached data valid.

use vstd::prelude::*;
use vstd::string::*;
use std::sync::atomic::AtomicUsize;

verus! {

/// Cache key of one GraphQL query response: a BLAKE3 digest.
#[derive(Clone, Copy, Debug, PartialEq, Eq, Hash)]
pub struct GraphqlResponseCacheKey(pub [u8; 32]);

impl GraphqlResponseCacheKey {
    pub fn new(bytes: [u8; 32]) -> (k: Self)
        ensures
            k.0 == bytes,
    {
        GraphqlResponseCacheKey(bytes)
    }
}

/// What `blake3::hash` returns for an input.
pub uninterp spec fn blake3_digest(input: Seq<u8>) -> Seq<u8>;

/// `blake3::hash`: the 32-byte BLAKE3 digest of the input. Its value is named
/// by [`blake3_digest`]; it depends on the input alone.
#[verifier::external_body]
pub(crate) fn blake3_hash(input: &[u8]) -> (digest: [u8; 32])
    ensures
        digest@ == blake3_digest(input@),
{
    *blake3::hash(input).as_bytes()
}

/// The low `count` bytes of `n`, least significant first.
pub open spec fn le_bytes(n: nat, count: nat) -> Seq<u8>
    decreases count,
{
    if count == 0 {
        seq![]
    } else {
        seq![(n % 256) as u8] + le_bytes(n / 256, (count - 1) as nat)
    }
}

/// `n.to_le_bytes()` for a `u64`.
pub open spec fn u64_le(n: u64) -> Seq<u8> {
    le_bytes(n as nat, 8)
}

/// A variable-length component, framed by its length as a `u64` in little
/// endian so that the components of a preimage cannot run into each other.
pub open spec fn framed(bytes: Seq<u8>) -> Seq<u8> {
    u64_le(bytes.len() as u64) + bytes
}

/// An optional component: a `1` tag followed by the framed bytes, or a
/// single `0` tag.
pub open spec fn framed_option(bytes: Option<Seq<u8>>) -> Seq<u8> {
    match bytes {
        Some(b) => seq![1u8] + framed(b),
        None => seq![0u8],
    }
}

pub open spec fn user_component(user_id: Option<i64>) -> Seq<u8> {
    match user_id {
        Some(id) => seq![1u8] + u64_le(id as u64),
        None => seq![0u8],
    }
}

/// The domain-separation tag that starts every preimage.
pub open spec fn cache_key_domain() -> Seq<u8> {
    "memory-map/graphql-response-cache/v1".spec_bytes()
}

/// The bytes hashed into the cache key of a query: the framed domain tag,
/// the cache epoch, the caller, the `Authorization` header, the query text,
/// the operation name, and the serialized variables.
pub open spec fn cache_key_preimage(
    cache_epoch: u64,
    user_id: Option<i64>,
    authorization: Option<Seq<u8>>,
    query: Seq<u8>,
    operation_name: Option<Seq<u8>>,
    variables_json: Seq<u8>,
) -> Seq<u8> {
    framed(cache_key_domain()) + u64_le(cache_epoch) + user_component(user_id) + framed_option(
        authorization,
    ) + framed(query) + framed_option(operation_name) + framed(variables_json)
}

fn push_le_bytes(out: &mut Vec<u8>, n: u64)
    ensures
        final(out)@ == old(out)@ + u64_le(n),
{
    let ghost start = out@;
    let mut rest: u64 = n;
    let mut k: usize = 0;
    while k < 8
        invariant
            k <= 8,
            out@ + le_bytes(rest as nat, (8 - k) as nat) == start + u64_le(n),
        decreases 8 - k,
    {
        let ghost before = out@;
        out.push((rest % 256) as u8);
        proof {
            assert(le_bytes(rest as nat, (8 - k) as nat) == seq![(rest % 256) as u8] + le_bytes(
                (rest / 256) as nat,
                (8 - k - 1) as nat,
            ));
            assert(out@ =~= before + seq![(rest % 256) as u8]);
            assert(before + le_bytes(rest as nat, (8 - k) as nat) =~= out@ + le_bytes(
                (rest / 256) as nat,
                (8 - k - 1) as nat,
            ));
        }
        rest = rest / 256;
        k = k + 1;
    }
    assert(out@ + le_bytes(rest as nat, 0) =~= out@);
}

fn push_bytes(out: &mut Vec<u8>, bytes: &[u8])
    ensures
        final(out)@ == old(out)@ + bytes@,
{
    let ghost start = out@;
    let mut i: usize = 0;
    while i < bytes.len()
        invariant
            i <= bytes@.len(),
            out@ == start + bytes@.take(i as int),
        decreases bytes.len() - i,
    {
        out.push(bytes[i]);
        i = i + 1;
        assert(bytes@.take(i as int) =~= bytes@.take(i - 1).push(bytes@[i - 1]));
    }
    assert(bytes@.take(bytes.len() as int) =~= bytes@);
}

fn push_framed(out: &mut Vec<u8>, bytes: &[u8])
    ensures
        final(out)@ == old(out)@ + framed(bytes@),
{
    let ghost start = out@;
    push_le_bytes(out, bytes.len() as u64);
    push_bytes(out, bytes);
    assert(out@ =~= start + framed(bytes@));
}

fn push_framed_option(out: &mut Vec<u8>, bytes: Option<&[u8]>)
    ensures
        final(out)@ == old(out)@ + framed_option(
            match bytes {
                Some(b) => Some(b@),
                None => None,
            },
        ),
{
    let ghost start = out@;
    match bytes {
        Some(b) => {
            out.push(1u8);
            push_framed(out, b);
            assert(out@ =~= start + (seq![1u8] + framed(b@)));
        },
        None => {
            out.push(0u8);
            assert(out@ =~= start + seq![0u8]);
        },
    }
}

/// The bytes hashed into a query's cache key.
pub fn cache_key_preimage_bytes(
    cache_epoch: u64,
    user_id: Option<i64>,
    authorization: Option<&[u8]>,
    query: &str,
    operation_name: Option<&str>,
    variables_json: &[u8],
) -> (preimage: Vec<u8>)
    ensures
        preimage@ == cache_key_preimage(
            cache_epoch,
            user_id,
            match authorization {
                Some(a) => Some(a@),
                None => None,
            },
            query.spec_bytes(),
            match operation_name {
                Some(n) => Some(n.spec_bytes()),
                None => None,
            },
            variables_json@,
        ),
{
    let mut out: Vec<u8> = Vec::new();
    push_framed(&mut out, "memory-map/graphql-response-cache/v1".as_bytes());
    push_le_bytes(&mut out, cache_epoch);
    let ghost after_epoch = out@;
    match user_id {
        Some(id) => {
            out.push(1u8);
            push_le_bytes(&mut out, id as u64);
            assert(out@ =~= after_epoch + user_component(user_id));
        },
        None => {
            out.push(0u8);
            assert(out@ =~= after_epoch + user_component(user_id));
        },
    }
    push_framed_option(&mut out, authorization);
    push_framed(&mut out, query.as_bytes());
    let name_bytes: Option<&[u8]> = match operation_name {
        Some(n) => Some(n.as_bytes()),
        None => None,
    };
    push_framed_option(&mut out, name_bytes);
    push_framed(&mut out, variables_json);
    out
}

/// The cache key of a query response, or `None` when the request may not be
/// served from the cache (it carries uploads or extensions).
pub fn graphql_response_cache_key(
    query: &str,
    operation_name: Option<&str>,
    variables_json: &[u8],
    has_uploads_or_extensions: bool,
    user_id: Option<i64>,
    authorization: Option<&[u8]>,
    cache_epoch: u64,
) -> (key: Option<GraphqlResponseCacheKey>)
    ensures
        has_uploads_or_extensions ==> key is None,
        !has_uploads_or_extensions ==> (key matches Some(k) && k.0@ == blake3_digest(
            cache_key_preimage(
                cache_epoch,
                user_id,
                match authorization {
                    Some(a) => Some(a@),
                    None => None,
                },
                query.spec_bytes(),
                match operation_name {
                    Some(n) => Some(n.spec_bytes()),
                    None => None,
                },
                variables_json@,
            ),
        )),
{
    if has_uploads_or_extensions {
        return None;
    }
    let preimage = cache_key_preimage_bytes(
        cache_epoch,
        user_id,
        authorization,
        query,
        operation_name,
        variables_json,
    );
    Some(GraphqlResponseCacheKey::new(blake3_hash(preimage.as_slice())))
}

pub open spec fn pow256(k: nat) -> nat
    decreases k,
{
    if k == 0 {
        1
    } else {
        256 * pow256((k - 1) as nat)
    }
}

proof fn lemma_le_bytes_len(n: nat, k: nat)
    ensures
        le_bytes(n, k).len() == k,
    decreases k,
{
    if k > 0 {
        lemma_le_bytes_len(n / 256, (k - 1) as nat);
    }
}

proof fn lemma_le_bytes_injective(n: nat, m: nat, k: nat)
    requires
        n < pow256(k),
        m < pow256(k),
        le_bytes(n, k) == le_bytes(m, k),
    ensures
        n == m,
    decreases k,
{
    if k == 0 {
    } else {
        let p = pow256((k - 1) as nat);
        lemma_le_bytes_len(n / 256, (k - 1) as nat);
        lemma_le_bytes_len(m / 256, (k - 1) as nat);
        assert(le_bytes(n, k)[0] == (n % 256) as u8);
        assert(le_bytes(m, k)[0] == (m % 256) as u8);
        assert(le_bytes(n, k).drop_first() =~= le_bytes(n / 256, (k - 1) as nat));
        assert(le_bytes(m, k).drop_first() =~= le_bytes(m / 256, (k - 1) as nat));
        assert(n / 256 < p) by (nonlinear_arith)
            requires
                n < 256 * p,
        ;
        assert(m / 256 < p) by (nonlinear_arith)
            requires
                m < 256 * p,
        ;
        lemma_le_bytes_injective(n / 256, m / 256, (k - 1) as nat);
        assert(n == 256 * (n / 256) + n % 256);
        assert(m == 256 * (m / 256) + m % 256);
    }
}

proof fn lemma_u64_le_injective(a: u64, b: u64)
    requires
        u64_le(a) == u64_le(b),
    ensures
        a == b,
{
    assert(pow256(8) == 18446744073709551616) by {
        reveal_with_fuel(pow256, 9);
    }
    lemma_le_bytes_injective(a as nat, b as nat, 8);
}

proof fn lemma_split<T>(a: Seq<T>, b: Seq<T>, c: Seq<T>, d: Seq<T>)
    requires
        a + b == c + d,
        a.len() == c.len(),
    ensures
        a == c,
        b == d,
{
    assert(a =~= (a + b).take(a.len() as int));
    assert(c =~= (c + d).take(c.len() as int));
    assert(b =~= (a + b).skip(a.len() as int));
    assert(d =~= (c + d).skip(c.len() as int));
}

proof fn lemma_framed_prefix(x: Seq<u8>, r1: Seq<u8>, y: Seq<u8>, r2: Seq<u8>)
    requires
        x.len() <= u64::MAX,
        y.len() <= u64::MAX,
        framed(x) + r1 == framed(y) + r2,
    ensures
        x == y,
        r1 == r2,
{
    lemma_le_bytes_len(x.len(), 8);
    lemma_le_bytes_len(y.len(), 8);
    assert(framed(x) + r1 =~= u64_le(x.len() as u64) + (x + r1));
    assert(framed(y) + r2 =~= u64_le(y.len() as u64) + (y + r2));
    lemma_split(u64_le(x.len() as u64), x + r1, u64_le(y.len() as u64), y + r2);
    lemma_u64_le_injective(x.len() as u64, y.len() as u64);
    lemma_split(x, r1, y, r2);
}

proof fn lemma_framed_option_prefix(
    x: Option<Seq<u8>>,
    r1: Seq<u8>,
    y: Option<Seq<u8>>,
    r2: Seq<u8>,
)
    requires
        x matches Some(b) ==> b.len() <= u64::MAX,
        y matches Some(b) ==> b.len() <= u64::MAX,
        framed_option(x) + r1 == framed_option(y) + r2,
    ensures
        x == y,
        r1 == r2,
{
    let s = framed_option(x) + r1;
    assert(s[0] == framed_option(x)[0]);
    assert((framed_option(y) + r2)[0] == framed_option(y)[0]);
    match x {
        Some(bx) => {
            match y {
                Some(by) => {
                    assert(framed_option(x) + r1 =~= seq![1u8] + (framed(bx) + r1));
                    assert(framed_option(y) + r2 =~= seq![1u8] + (framed(by) + r2));
                    lemma_split(seq![1u8], framed(bx) + r1, seq![1u8], framed(by) + r2);
                    lemma_framed_prefix(bx, r1, by, r2);
                },
                None => {},
            }
        },
        None => {
            match y {
                Some(by) => {},
                None => {
                    lemma_split(seq![0u8], r1, seq![0u8], r2);
                },
            }
        },
    }
}

proof fn lemma_user_prefix(x: Option<i64>, r1: Seq<u8>, y: Option<i64>, r2: Seq<u8>)
    requires
        user_component(x) + r1 == user_component(y) + r2,
    ensures
        x == y,
        r1 == r2,
{
    let s = user_component(x) + r1;
    assert(s[0] == user_component(x)[0]);
    assert((user_component(y) + r2)[0] == user_component(y)[0]);
    match x {
        Some(a) => {
            match y {
                Some(b) => {
                    lemma_le_bytes_len(a as u64 as nat, 8);
                    lemma_le_bytes_len(b as u64 as nat, 8);
                    assert(user_component(x) + r1 =~= seq![1u8] + (u64_le(a as u64) + r1));
                    assert(user_component(y) + r2 =~= seq![1u8] + (u64_le(b as u64) + r2));
                    lemma_split(seq![1u8], u64_le(a as u64) + r1, seq![1u8], u64_le(b as u64) + r2);
                    lemma_split(u64_le(a as u64), r1, u64_le(b as u64), r2);
                    lemma_u64_le_injective(a as u64, b as u64);
                    assert(a == b) by (bit_vector)
                        requires
                            a as u64 == b as u64,
                    ;
                },
                None => {},
            }
        },
        None => {
            match y {
                Some(b) => {},
                None => {
                    lemma_split(seq![0u8], r1, seq![0u8], r2);
                },
            }
        },
    }
}

pub open spec fn preimage_tail(
    cache_epoch: u64,
    user_id: Option<i64>,
    authorization: Option<Seq<u8>>,
    query: Seq<u8>,
    operation_name: Option<Seq<u8>>,
    variables_json: Seq<u8>,
) -> Seq<u8> {
    u64_le(cache_epoch) + (user_component(user_id) + (framed_option(authorization) + (framed(
        query,
    ) + (framed_option(operation_name) + framed(variables_json)))))
}

proof fn lemma_preimage_shape(
    cache_epoch: u64,
    user_id: Option<i64>,
    authorization: Option<Seq<u8>>,
    query: Seq<u8>,
    operation_name: Option<Seq<u8>>,
    variables_json: Seq<u8>,
)
    ensures
        cache_key_preimage(cache_epoch, user_id, authorization, query, operation_name, variables_json)
            == framed(cache_key_domain()) + preimage_tail(
            cache_epoch,
            user_id,
            authorization,
            query,
            operation_name,
            variables_json,
        ),
{
    let d = framed(cache_key_domain());
    let e = u64_le(cache_epoch);
    let u = user_component(user_id);
    let a = framed_option(authorization);
    let q = framed(query);
    let n = framed_option(operation_name);
    let v = framed(variables_json);
    assert(n + v == framed_option(operation_name) + framed(variables_json));
    assert(((((d + e) + u) + a) + q) + n + v =~= d + (e + (u + (a + (q + (n + v))))));
}

/// Distinct requests never share a cache-key preimage: the preimage
/// determines the cache epoch, the caller, the `Authorization` header, the
/// query, the operation name and the variables. (Keys then differ unless
/// BLAKE3 collides.)
pub proof fn law_cache_key_preimage_injective(
    epoch1: u64,
    user1: Option<i64>,
    auth1: Option<Seq<u8>>,
    query1: Seq<u8>,
    name1: Option<Seq<u8>>,
    vars1: Seq<u8>,
    epoch2: u64,
    user2: Option<i64>,
    auth2: Option<Seq<u8>>,
    query2: Seq<u8>,
    name2: Option<Seq<u8>>,
    vars2: Seq<u8>,
)
    requires
        auth1 matches Some(b) ==> b.len() <= u64::MAX,
        auth2 matches Some(b) ==> b.len() <= u64::MAX,
        name1 matches Some(b) ==> b.len() <= u64::MAX,
        name2 matches Some(b) ==> b.len() <= u64::MAX,
        query1.len() <= u64::MAX,
        query2.len() <= u64::MAX,
        vars1.len() <= u64::MAX,
        vars2.len() <= u64::MAX,
        cache_key_preimage(epoch1, user1, auth1, query1, name1, vars1) == cache_key_preimage(
            epoch2,
            user2,
            auth2,
            query2,
            name2,
            vars2,
        ),
    ensures
        epoch1 == epoch2,
        user1 == user2,
        auth1 == auth2,
        query1 == query2,
        name1 == name2,
        vars1 == vars2,
{
    let d = framed(cache_key_domain());
    let t1 = framed_option(name1) + framed(vars1);
    let t2 = framed_option(name2) + framed(vars2);
    let q1 = framed(query1) + t1;
    let q2 = framed(query2) + t2;
    let a1 = framed_option(auth1) + q1;
    let a2 = framed_option(auth2) + q2;
    let u1 = user_component(user1) + a1;
    let u2 = user_component(user2) + a2;
    let e1 = u64_le(epoch1) + u1;
    let e2 = u64_le(epoch2) + u2;
    lemma_preimage_shape(epoch1, user1, auth1, query1, name1, vars1);
    lemma_preimage_shape(epoch2, user2, auth2, query2, name2, vars2);
    assert(e1 == preimage_tail(epoch1, user1, auth1, query1, name1, vars1));
    assert(e2 == preimage_tail(epoch2, user2, auth2, query2, name2, vars2));
    lemma_split(d, e1, d, e2);
    lemma_le_bytes_len(epoch1 as nat, 8);
    lemma_le_bytes_len(epoch2 as nat, 8);
    lemma_split(u64_le(epoch1), u1, u64_le(epoch2), u2);
    lemma_u64_le_injective(epoch1, epoch2);
    lemma_user_prefix(user1, a1, user2, a2);
    lemma_framed_option_prefix(auth1, q1, auth2, q2);
    lemma_framed_prefix(query1, t1, query2, t2);
    lemma_framed_option_prefix(name1, framed(vars1), name2, framed(vars2));
    assert(framed(vars1) + seq![] =~= framed(vars1));
    assert(framed(vars2) + seq![] =~= framed(vars2));
    lemma_framed_prefix(vars1, seq![], vars2, seq![]);
}

/// Byte cost of a cached entry: the body plus each header's name and value,
/// saturating, capped at `u32::MAX`.
pub open spec fn header_bytes(headers: Seq<(usize, usize)>) -> nat
    decreases headers.len(),
{
    if headers.len() == 0 {
        0
    } else {
        header_bytes(headers.drop_last()) + saturated(
            headers.last().0 as nat + headers.last().1 as nat,
        )
    }
}

pub open spec fn saturated(n: nat) -> nat {
    if n > usize::MAX {
        usize::MAX as nat
    } else {
        n
    }
}

pub open spec fn entry_weight(body_len: usize, headers: Seq<(usize, usize)>) -> u32 {
    let total = saturated(body_len as nat + header_bytes(headers));
    if total > u32::MAX {
        u32::MAX
    } else {
        total as u32
    }
}

/// Weight of a cache entry, given its body length and the length of each
/// header's name and value.
pub fn cache_entry_weight(body_len: usize, headers: &[(usize, usize)]) -> (w: u32)
    requires
        header_bytes(headers@) <= usize::MAX,
    ensures
        w == entry_weight(body_len, headers@),
{
    let mut sum: usize = 0;
    let mut i: usize = 0;
    while i < headers.len()
        invariant
            i <= headers@.len(),
            header_bytes(headers@) <= usize::MAX,
            sum == header_bytes(headers@.take(i as int)),
        decreases headers.len() - i,
    {
        proof {
            lemma_header_bytes_prefix(headers@, (i + 1) as nat);
            assert(headers@.take(i + 1).drop_last() =~= headers@.take(i as int));
        }
        let (name_len, value_len) = headers[i];
        sum = sum + name_len.saturating_add(value_len);
        i = i + 1;
    }
    assert(headers@.take(headers.len() as int) =~= headers@);
    let total = body_len.saturating_add(sum);
    if total > u32::MAX as usize {
        u32::MAX
    } else {
        total as u32
    }
}

proof fn lemma_header_bytes_prefix(headers: Seq<(usize, usize)>, k: nat)
    requires
        k <= headers.len(),
    ensures
        header_bytes(headers.take(k as int)) <= header_bytes(headers),
    decreases headers.len(),
{
    if k < headers.len() {
        lemma_header_bytes_prefix(headers.drop_last(), k);
        assert(headers.drop_last().take(k as int) =~= headers.take(k as int));
    } else {
        assert(headers.take(k as int) =~= headers);
    }
}

/// Whether a query response may be written to the cache: the request had a
/// cache key, the response succeeded, no cookie is being set, and no write
/// invalidated the cache while the query ran.
pub open spec fn may_store(
    has_key: bool,
    response_ok: bool,
    issued_cookies: nat,
    sets_cookie_header: bool,
    epoch_at_start: u64,
    epoch_now: u64,
) -> bool {
    has_key && response_ok && issued_cookies == 0 && !sets_cookie_header && epoch_at_start
        == epoch_now
}

pub fn response_may_be_cached(
    has_key: bool,
    response_ok: bool,
    issued_cookies: usize,
    sets_cookie_header: bool,
    epoch_at_start: u64,
    epoch_now: u64,
) -> (b: bool)
    ensures
        b == may_store(
            has_key,
            response_ok,
            issued_cookies as nat,
            sets_cookie_header,
            epoch_at_start,
            epoch_now,
        ),
{
    has_key && response_ok && issued_cookies == 0 && !sets_cookie_header && epoch_at_start
        == epoch_now
}

/// Per-request count of root mutation fields marked as leaving query-visible
/// state unchanged. Its count feeds
/// [`operation_invalidates_cache`](crate::operation::operation_invalidates_cache),
/// which spares the response cache only when every root field of the mutation
/// was marked.
#[derive(Debug)]
pub struct GraphqlMutationCacheEffect {
    non_invalidating_field_count: AtomicUsize,
}

impl Default for GraphqlMutationCacheEffect {
    fn default() -> Self {
        GraphqlMutationCacheEffect { non_invalidating_field_count: AtomicUsize::new(0) }
    }
}

impl GraphqlMutationCacheEffect {
    /// Counts one more non-invalidating root field. Resolvers may run
    /// concurrently, so the count is shared and nothing is promised about the
    /// value another reader sees.
    pub fn mark_non_invalidating_field(&self) {
        self.non_invalidating_field_count.fetch_add(1, std::sync::atomic::Ordering::AcqRel);
    }

    /// The number of fields counted so far.
    pub fn non_invalidating_field_count(&self) -> usize {
        self.non_invalidating_field_count.load(std::sync::atomic::Ordering::Acquire)
    }
}

} // verus!

use memory_map::cache::{
    cache_entry_weight, cache_key_preimage_bytes, graphql_response_cache_key,
    response_may_be_cached, GraphqlMutationCacheEffect, GraphqlResponseCacheKey,
};

const QUERY: &str = "query Object($id: Int!) { s3ObjectById(id: $id) { id } }";

fn variables(id: i64) -> Vec<u8> {
    format!("{{\"id\":{id}}}").into_bytes()
}

fn cache_key(id: i64, user_id: Option<i64>, cache_epoch: u64) -> Option<GraphqlResponseCacheKey> {
    graphql_response_cache_key(QUERY, None, &variables(id), false, user_id, None, cache_epoch)
}

#[test]
fn graphql_response_cache_key_scopes_by_actor_variables_and_epoch() {
    let key = cache_key(1, Some(10), 0).expect("request should be cacheable");
    assert_eq!(cache_key(1, Some(10), 0), Some(key));
    assert_ne!(cache_key(1, Some(11), 0), Some(key));
    assert_ne!(cache_key(2, Some(10), 0), Some(key));
    assert_ne!(cache_key(1, Some(10), 1), Some(key));
}

#[test]
fn graphql_response_cache_key_skips_requests_with_extensions() {
    let mut request = async_graphql::Request::new(QUERY);
    request
        .extensions
        .insert("cacheBypass".to_string(), async_graphql::Value::Boolean(true));
    let carries_uploads_or_extensions = !request.uploads.is_empty() || !request.extensions.is_empty();
    assert!(graphql_response_cache_key(
        &request.query,
        request.operation_name.as_deref(),
        &variables(1),
        carries_uploads_or_extensions,
        Some(10),
        None,
        0,
    )
    .is_none());
}

#[test]
fn graphql_response_cache_key_scopes_by_authorization_header() {
    let vars = variables(1);
    let key = graphql_response_cache_key(QUERY, None, &vars, false, Some(10), Some(b"Bearer a"), 0)
        .expect("request should be cacheable");

    assert_eq!(
        graphql_response_cache_key(QUERY, None, &vars, false, Some(10), Some(b"Bearer a"), 0),
        Some(key)
    );
    assert_ne!(
        graphql_response_cache_key(QUERY, None, &vars, false, Some(10), Some(b"Bearer b"), 0),
        Some(key)
    );
    assert_ne!(cache_key(1, Some(10), 0), Some(key));
}

#[test]
fn cache_key_is_the_blake3_digest_of_the_framed_request() {
    let vars = variables(1);
    let preimage = cache_key_preimage_bytes(3, Some(7), None, QUERY, Some("Object"), &vars);
    let framed = |out: &mut Vec<u8>, bytes: &[u8]| {
        out.extend_from_slice(&(bytes.len() as u64).to_le_bytes());
        out.extend_from_slice(bytes);
    };
    let mut expected = Vec::new();
    framed(&mut expected, b"memory-map/graphql-response-cache/v1");
    expected.extend_from_slice(&3u64.to_le_bytes());
    expected.push(1);
    expected.extend_from_slice(&7i64.to_le_bytes());
    expected.push(0);
    framed(&mut expected, QUERY.as_bytes());
    expected.push(1);
    framed(&mut expected, b"Object");
    framed(&mut expected, &vars);
    assert_eq!(preimage, expected);
    let key = graphql_response_cache_key(QUERY, Some("Object"), &vars, false, Some(7), None, 3);
    assert_eq!(key.map(|k| k.0), Some(*blake3::hash(&preimage).as_bytes()));
    // Anonymous and signed-in requests never share a key.
    assert_ne!(
        graphql_response_cache_key(QUERY, None, &vars, false, None, None, 0),
        graphql_response_cache_key(QUERY, None, &vars, false, Some(0), None, 0)
    );
    // The operation name is part of the key.
    assert_ne!(
        graphql_response_cache_key(QUERY, None, &vars, false, None, None, 0),
        graphql_response_cache_key(QUERY, Some(""), &vars, false, None, None, 0)
    );
}

#[test]
fn cache_entry_weight_sums_body_and_headers() {
    assert_eq!(cache_entry_weight(10, &[(12, 30), (4, 2)]), 58);
    assert_eq!(cache_entry_weight(0, &[]), 0);
    assert_eq!(cache_entry_weight(usize::MAX, &[(1, 1)]), u32::MAX);
}

#[test]
fn responses_are_cached_only_when_safe() {
    assert!(response_may_be_cached(true, true, 0, false, 4, 4));
    assert!(!response_may_be_cached(false, true, 0, false, 4, 4));
    assert!(!response_may_be_cached(true, false, 0, false, 4, 4));
    assert!(!response_may_be_cached(true, true, 1, false, 4, 4));
    assert!(!response_may_be_cached(true, true, 0, true, 4, 4));
    assert!(!response_may_be_cached(true, true, 0, false, 4, 5));
}

#[test]
fn mutation_cache_effect_counts_marked_fields() {
    let effect = GraphqlMutationCacheEffect::default();
    assert_eq!(effect.non_invalidating_field_count(), 0);
    effect.mark_non_invalidating_field();
    effect.mark_non_invalidating_field();
    assert_eq!(effect.non_invalidating_field_count(), 2);
    assert_eq!(GraphqlResponseCacheKey::new([7; 32]).0, [7; 32]);
}

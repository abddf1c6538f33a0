use memo::backend::{construct_cache, ConcurrencyKind, StorageKind};
use memo::errors::{GatedOption, GenError, SignatureFault};
use memo::naming::derive_names;
use memo::options::{CacheOption, CacheOptions};
use memo::signature::{check_signature, FunctionSignature, Param, ParamPattern};
use memo::synth::memoize_fn;

fn sig(
    ident: &str,
    has_receiver: bool,
    params: Vec<(&str, &str)>,
    return_type: Option<&str>,
    visibility: &str,
) -> FunctionSignature {
    FunctionSignature {
        ident: ident.to_string(),
        has_receiver,
        params: params
            .into_iter()
            .map(|(n, t)| Param {
                pattern: ParamPattern::Ident(n.to_string()),
                ty: t.to_string(),
            })
            .collect(),
        return_type: return_type.map(|t| t.to_string()),
        visibility: visibility.to_string(),
    }
}

#[test]
fn resolve_defaults() {
    let opts = CacheOptions::from_items(vec![], true).unwrap();
    assert_eq!(opts.lru_max_entries, None);
    assert!(opts.time_to_live.is_none());
    assert!(!opts.shared_cache);
    assert!(opts.custom_hasher.is_none());
    assert!(opts.custom_hasher_initializer.is_none());
    assert!(opts.ignore.is_empty());
}

#[test]
fn resolve_last_occurrence_wins() {
    let opts = CacheOptions::from_items(
        vec![
            CacheOption::LruMaxEntries(2),
            CacheOption::LruMaxEntries(5),
            CacheOption::Ignore("a".to_string()),
            CacheOption::SharedCache,
            CacheOption::Ignore("b".to_string()),
        ],
        true,
    )
    .unwrap();
    assert_eq!(opts.lru_max_entries, Some(5));
    assert!(opts.shared_cache);
    assert_eq!(opts.ignore, vec!["a".to_string(), "b".to_string()]);
}

#[test]
fn resolve_gating_capacity() {
    let r = CacheOptions::from_items(vec![CacheOption::LruMaxEntries(2)], false);
    assert_eq!(r.unwrap_err(), GenError::FeatureGating(GatedOption::Capacity));
}

#[test]
fn resolve_gating_time_to_live() {
    let r = CacheOptions::from_items(
        vec![
            CacheOption::Ignore("a".to_string()),
            CacheOption::TimeToLive("Duration::from_secs(2)".to_string()),
            CacheOption::LruMaxEntries(2),
        ],
        false,
    );
    assert_eq!(
        r.unwrap_err(),
        GenError::FeatureGating(GatedOption::TimeToLive)
    );
}

#[test]
fn gating_message_has_guidance() {
    let e = GenError::FeatureGating(GatedOption::Capacity);
    assert_eq!(
        e.message(),
        "memoize error: Capacity specified, but the feature 'full' is not enabled! To fix this, compile with `--features=full`."
    );
}

#[test]
fn classify_ignore() {
    let s = sig(
        "g",
        false,
        vec![("a", "int"), ("flag", "bool")],
        Some("int"),
        "",
    );
    let opts = CacheOptions::from_items(vec![CacheOption::Ignore("flag".to_string())], true).unwrap();
    let params = check_signature(&s, &opts).unwrap();
    assert_eq!(params.len(), 2);
    assert_eq!(params[0].arg_name, "a");
    assert!(params[0].is_memoized);
    assert_eq!(params[1].arg_name, "flag");
    assert!(!params[1].is_memoized);
}

#[test]
fn classify_rejects_patterns() {
    let mut s = sig("f", false, vec![("a", "int")], Some("int"), "");
    s.params.push(Param {
        pattern: ParamPattern::Other,
        ty: "(u8, u8)".to_string(),
    });
    let opts = CacheOptions::from_items(vec![], true).unwrap();
    let e = check_signature(&s, &opts).unwrap_err();
    assert_eq!(
        e,
        GenError::UnsupportedSignature(SignatureFault::NonIdentifierPattern)
    );
    assert_eq!(e.message(), "Cannot memoize arbitrary patterns!");
}

#[test]
fn backend_default_map() {
    let opts = CacheOptions::from_items(vec![], true).unwrap();
    let b = construct_cache(&opts).unwrap();
    assert_eq!(b.kind, StorageKind::UnboundedMap);
    assert_eq!(b.insert_op, "insert");
    assert_eq!(b.lookup_op, "get");
    assert_eq!(b.capacity, None);
}

#[test]
fn backend_bounded_lru() {
    let opts = CacheOptions::from_items(vec![CacheOption::LruMaxEntries(1234)], true).unwrap();
    let b = construct_cache(&opts).unwrap();
    assert_eq!(b.kind, StorageKind::BoundedLRU);
    assert_eq!(b.capacity, Some(1234));
    assert_eq!(b.insert_op, "put");
    assert_eq!(b.lookup_op, "get");
}

#[test]
fn backend_custom_hasher() {
    let opts = CacheOptions::from_items(
        vec![
            CacheOption::CustomHasher("FxHashMap".to_string()),
            CacheOption::HasherInit("FxHashMap::default()".to_string()),
        ],
        true,
    )
    .unwrap();
    let b = construct_cache(&opts).unwrap();
    assert_eq!(b.kind, StorageKind::CustomHasherMap);
    assert_eq!(b.hasher.as_deref(), Some("FxHashMap"));
    assert_eq!(b.hasher_init.as_deref(), Some("FxHashMap::default()"));
    assert_eq!(b.insert_op, "insert");
}

#[test]
fn backend_conflict_rejected() {
    let opts = CacheOptions::from_items(
        vec![
            CacheOption::LruMaxEntries(2),
            CacheOption::CustomHasher("FxHashMap".to_string()),
        ],
        true,
    )
    .unwrap();
    let e = construct_cache(&opts).unwrap_err();
    assert_eq!(e, GenError::ConfigurationConflict);
    assert_eq!(
        e.message(),
        "Cannot use LRU cache and a custom hasher at the same time"
    );
}

#[test]
fn names_follow_convention() {
    let names = derive_names("hello");
    assert_eq!(names.renamed_original, "memoized_original_hello");
    assert_eq!(names.wrapper, "hello");
    assert_eq!(names.flush, "memoized_flush_hello");
    assert_eq!(names.size, "memoized_size_hello");
    assert_eq!(names.storage_symbol, "MEMOIZED_MAPPING_HELLO");
}

#[test]
fn names_keep_digits_and_underscores() {
    let names = derive_names("do_2_things");
    assert_eq!(names.storage_symbol, "MEMOIZED_MAPPING_DO_2_THINGS");
    assert_eq!(names.flush, "memoized_flush_do_2_things");
}

#[test]
fn synthesize_plain_function() {
    let s = sig(
        "hello",
        false,
        vec![("arg", "String"), ("arg2", "usize")],
        Some("bool"),
        "pub",
    );
    let a = memoize_fn(&s, vec![], true).unwrap();
    assert_eq!(a.names.renamed_original, "memoized_original_hello");
    assert_eq!(a.names.storage_symbol, "MEMOIZED_MAPPING_HELLO");
    assert_eq!(a.visibility, "pub");
    assert_eq!(a.params.len(), 2);
    assert!(a.params.iter().all(|p| p.is_memoized));
    assert_eq!(a.key_types, vec!["String".to_string(), "usize".to_string()]);
    assert_eq!(a.key_names, vec!["arg".to_string(), "arg2".to_string()]);
    assert_eq!(a.return_type, "bool");
    assert_eq!(a.backend.kind, StorageKind::UnboundedMap);
    assert_eq!(a.concurrency, ConcurrencyKind::PerContextIsolated);
}

#[test]
fn synthesize_ignored_parameter_key_shape() {
    let s = sig(
        "g",
        false,
        vec![("a", "int"), ("flag", "bool")],
        Some("int"),
        "",
    );
    let a = memoize_fn(&s, vec![CacheOption::Ignore("flag".to_string())], true).unwrap();
    assert_eq!(a.key_types, vec!["int".to_string()]);
    assert_eq!(a.key_names, vec!["a".to_string()]);
    assert!(!a.params[1].is_memoized);
}

#[test]
fn synthesize_shared_ttl_lru() {
    let s = sig("f", false, vec![("a", "u64")], Some("u64"), "");
    let a = memoize_fn(
        &s,
        vec![
            CacheOption::SharedCache,
            CacheOption::TimeToLive("Duration::from_secs(2)".to_string()),
            CacheOption::LruMaxEntries(7),
        ],
        true,
    )
    .unwrap();
    assert_eq!(a.concurrency, ConcurrencyKind::SharedLocked);
    assert_eq!(a.backend.ttl.as_deref(), Some("Duration::from_secs(2)"));
    assert_eq!(a.backend.kind, StorageKind::BoundedLRU);
    assert_eq!(a.backend.capacity, Some(7));
    assert_eq!(a.backend.insert_op, "put");
}

#[test]
fn synthesize_unit_return_type() {
    let s = sig("noop", false, vec![("a", "u8")], None, "");
    let a = memoize_fn(&s, vec![], true).unwrap();
    assert_eq!(a.return_type, "()");
}

#[test]
fn synthesize_rejects_receiver() {
    let s = sig("m", true, vec![("a", "u8")], Some("u8"), "");
    let e = memoize_fn(&s, vec![], true).unwrap_err();
    assert_eq!(e, GenError::UnsupportedSignature(SignatureFault::Receiver));
    assert_eq!(e.message(), "Cannot memoize methods!");
}

#[test]
fn synthesize_rejects_capacity_with_hasher() {
    let s = sig("f", false, vec![("a", "u64")], Some("u64"), "");
    let e = memoize_fn(
        &s,
        vec![
            CacheOption::LruMaxEntries(2),
            CacheOption::CustomHasher("FxHashMap".to_string()),
        ],
        true,
    )
    .unwrap_err();
    assert_eq!(e, GenError::ConfigurationConflict);
}

#[test]
fn synthesize_gating_before_conflict() {
    let s = sig("f", false, vec![("a", "u64")], Some("u64"), "");
    let e = memoize_fn(
        &s,
        vec![
            CacheOption::LruMaxEntries(2),
            CacheOption::CustomHasher("FxHashMap".to_string()),
        ],
        false,
    )
    .unwrap_err();
    assert_eq!(e, GenError::FeatureGating(GatedOption::Capacity));
}

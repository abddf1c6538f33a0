use vstd::prelude::*;

use crate::backend::{construct_cache, BackendDescriptor, ConcurrencyKind, StorageKind};
use crate::errors::{GenError, SignatureFault};
use crate::naming::{derive_names, upper_chars, GeneratedNames};
use crate::options::{
    first_gated, opt_str_view, resolved_capacity, resolved_hasher, resolved_ignore, resolved_init,
    resolved_shared, resolved_ttl, CacheOption, CacheOptions,
};
use crate::signature::{
    all_plain_idents, check_signature, classified, memoized_input_names, memoized_input_types,
    memoized_names, memoized_types, FnArgument, FunctionSignature,
};

verus! {

/// The artifact produced for one memoized function: everything the
/// enclosing build pipeline needs to emit the five generated declarations
/// (renamed original, wrapper, flush, size, storage), with every choice —
/// names, parameter roles, key shape, storage backend, concurrency mode —
/// already made. Built once per invocation; immutable thereafter.
#[derive(Debug)]
pub struct GeneratedArtifact {
    /// The names of the five generated declarations.
    pub names: GeneratedNames,
    /// The original function's visibility, inherited by the wrapper, flush
    /// and size declarations.
    pub visibility: String,
    /// All parameters in declaration order, each classified as memoized or
    /// ignored. Memoized arguments are forwarded to the renamed function as
    /// independent copies; ignored ones as they are.
    pub params: Vec<FnArgument>,
    /// The types of the memoized parameters: the ordered components of the
    /// cache's key tuple type.
    pub key_types: Vec<String>,
    /// The names of the memoized parameters: the components of the
    /// key-building expression.
    pub key_names: Vec<String>,
    /// The wrapper's return type; the unit type when none was declared.
    pub return_type: String,
    /// The selected storage backend.
    pub backend: BackendDescriptor,
    /// The selected concurrency mode.
    pub concurrency: ConcurrencyKind,
}

/// The generation-time failure, if any, that a signature and a list of
/// configuration items produce, in the order the checks run: a
/// receiver-style parameter, then an advanced option without the extended
/// backend capability, then a parameter that does not bind by a plain
/// identifier, then capacity combined with a custom hasher.
pub open spec fn gen_error_of(
    sig: FunctionSignature,
    items: Seq<CacheOption>,
    full_feature: bool,
) -> Option<GenError> {
    if sig.has_receiver {
        Some(GenError::UnsupportedSignature(SignatureFault::Receiver))
    } else if !full_feature && first_gated(items) is Some {
        Some(GenError::FeatureGating(first_gated(items)->Some_0))
    } else if !all_plain_idents(sig.params@) {
        Some(GenError::UnsupportedSignature(SignatureFault::NonIdentifierPattern))
    } else if resolved_capacity(items) is Some && resolved_hasher(items) is Some {
        Some(GenError::ConfigurationConflict)
    } else {
        None
    }
}

/// What a correct artifact for `sig` under the configuration `items` looks
/// like: the fixed naming convention, the classification of every
/// parameter, the key shape, and the storage and concurrency choices of the
/// resolved configuration.
pub open spec fn artifact_matches(
    a: GeneratedArtifact,
    sig: FunctionSignature,
    items: Seq<CacheOption>,
) -> bool {
    &&& a.names.renamed_original@ == "memoized_original_"@ + sig.ident@
    &&& a.names.wrapper@ == sig.ident@
    &&& a.names.flush@ == "memoized_flush_"@ + sig.ident@
    &&& a.names.size@ == "memoized_size_"@ + sig.ident@
    &&& a.names.storage_symbol@ == "MEMOIZED_MAPPING_"@ + (if vstd::utf8::is_ascii_chars(
        sig.ident@,
    ) {
        upper_chars(sig.ident@)
    } else {
        sig.ident@
    })
    &&& a.visibility@ == sig.visibility@
    &&& classified(sig.params@, resolved_ignore(items), a.params@)
    &&& a.key_types.deep_view() == memoized_types(a.params@)
    &&& a.key_names.deep_view() == memoized_names(a.params@)
    &&& a.return_type@ == (match sig.return_type {
        Some(t) => t@,
        None => "()"@,
    })
    &&& a.backend.kind == (if resolved_capacity(items) is Some {
        StorageKind::BoundedLRU
    } else if resolved_hasher(items) is Some {
        StorageKind::CustomHasherMap
    } else {
        StorageKind::UnboundedMap
    })
    &&& a.backend.capacity == resolved_capacity(items)
    &&& opt_str_view(a.backend.hasher) == resolved_hasher(items)
    &&& opt_str_view(a.backend.hasher_init) == (if resolved_hasher(items) is Some {
        resolved_init(items)
    } else {
        Option::<Seq<char>>::None
    })
    &&& opt_str_view(a.backend.ttl) == resolved_ttl(items)
    &&& a.backend.insert_op@ == (if resolved_capacity(items) is Some {
        "put"@
    } else {
        "insert"@
    })
    &&& a.backend.lookup_op@ == "get"@
    &&& a.concurrency == (if resolved_shared(items) {
        ConcurrencyKind::SharedLocked
    } else {
        ConcurrencyKind::PerContextIsolated
    })
}

/// Mutual exclusivity: a configuration that resolves both a capacity bound
/// and a custom hasher never produces a runnable artifact — generation
/// fails for every signature, whether or not the extended backend
/// capability is enabled.
pub proof fn lemma_capacity_hasher_exclusive(
    sig: FunctionSignature,
    items: Seq<CacheOption>,
    full_feature: bool,
)
    requires
        resolved_capacity(items) is Some,
        resolved_hasher(items) is Some,
    ensures
        gen_error_of(sig, items, full_feature) is Some,
{
}

/// Synthesizes the memoizing artifact for one function.
///
/// The configuration is resolved first, and generation fails fast — with
/// exactly the failure [`gen_error_of`] gives — before any artifact is
/// produced: a receiver-style parameter, an advanced option without the
/// extended backend capability, a parameter binding that is not a plain
/// identifier, or capacity combined with a custom hasher each reject the
/// invocation at build time. On success the artifact is completely
/// determined by the signature and the configuration, as
/// [`artifact_matches`] states.
pub fn memoize_fn(sig: &FunctionSignature, items: Vec<CacheOption>, full_feature: bool) -> (r: Result<
    GeneratedArtifact,
    GenError,
>)
    ensures
        r is Err <==> gen_error_of(*sig, items@, full_feature) is Some,
        r is Err ==> Some(r->Err_0) == gen_error_of(*sig, items@, full_feature),
        r is Ok ==> artifact_matches(r->Ok_0, *sig, items@),
{
    if sig.has_receiver {
        return Err(GenError::UnsupportedSignature(SignatureFault::Receiver));
    }
    let options = match CacheOptions::from_items(items, full_feature) {
        Ok(o) => o,
        Err(e) => return Err(e),
    };
    let params = match check_signature(sig, &options) {
        Ok(p) => p,
        Err(e) => return Err(e),
    };
    let backend = match construct_cache(&options) {
        Ok(b) => b,
        Err(e) => return Err(e),
    };
    let key_types = memoized_input_types(&params);
    let key_names = memoized_input_names(&params);
    let names = derive_names(sig.ident.as_str());
    let concurrency = if options.shared_cache {
        ConcurrencyKind::SharedLocked
    } else {
        ConcurrencyKind::PerContextIsolated
    };
    let return_type = match &sig.return_type {
        Some(t) => t.clone(),
        None => String::from_str("()"),
    };
    Ok(GeneratedArtifact {
        names,
        visibility: sig.visibility.clone(),
        params,
        key_types,
        key_names,
        return_type,
        backend,
        concurrency,
    })
}

} // verus!

use vstd::prelude::*;

use crate::errors::{GenError, SignatureFault};
use crate::options::CacheOptions;

verus! {

/// How one parameter of the function binds its argument.
#[derive(Debug)]
pub enum ParamPattern {
    /// A plain identifier — the only binding form that can be memoized.
    Ident(String),
    /// Any other pattern (tuple, struct, wildcard, ...).
    Other,
}

/// One declared parameter: its binding pattern and the source text of its
/// type.
#[derive(Debug)]
pub struct Param {
    pub pattern: ParamPattern,
    pub ty: String,
}

/// A function signature, as the signature-extraction collaborator hands it
/// over. Types, the visibility and the identifier are carried as source
/// text and never interpreted here.
#[derive(Debug)]
pub struct FunctionSignature {
    /// The function's identifier.
    pub ident: String,
    /// Whether a receiver-style first parameter (`self` in some form) is
    /// present. Such parameters are not listed in `params`.
    pub has_receiver: bool,
    /// The non-receiver parameters, in declaration order.
    pub params: Vec<Param>,
    /// The declared return type, or `None` for the default unit type.
    pub return_type: Option<String>,
    /// The visibility qualifier, possibly empty.
    pub visibility: String,
}

/// An argument of the memoized function, classified for the cache.
#[derive(Debug)]
pub struct FnArgument {
    /// Source text of the argument's type.
    pub arg_type: String,
    /// Name of the argument.
    pub arg_name: String,
    /// Whether this argument is part of the cache key. Memoized arguments
    /// are forwarded to the renamed wrapped function as independent copies;
    /// ignored ones keep their ownership semantics unchanged.
    pub is_memoized: bool,
}

/// Whether every parameter binds by a plain identifier.
pub open spec fn all_plain_idents(params: Seq<Param>) -> bool {
    forall|j: int| 0 <= j < params.len() ==> params[j].pattern is Ident
}

/// The classification of one parameter list against a set of ignored names:
/// element `j` describes parameter `j`, which is memoized exactly when its
/// name is not among the ignored names.
pub open spec fn classified(params: Seq<Param>, ignored: Seq<Seq<char>>, out: Seq<FnArgument>) -> bool {
    &&& out.len() == params.len()
    &&& forall|j: int| 0 <= j < out.len() ==> {
        &&& #[trigger] out[j].arg_name@ == params[j].pattern->Ident_0@
        &&& out[j].arg_type@ == params[j].ty@
        &&& out[j].is_memoized == !ignored.contains(params[j].pattern->Ident_0@)
    }
}

/// Whether `name` is one of the accumulated ignored parameter names.
fn contains_name(ignored: &Vec<String>, name: &String) -> (r: bool)
    ensures
        r == ignored.deep_view().contains(name@),
{
    let mut i: usize = 0;
    while i < ignored.len()
        invariant
            0 <= i <= ignored.len(),
            forall|j: int| 0 <= j < i ==> ignored.deep_view()[j] != name@,
        decreases ignored.len() - i,
    {
        if ignored[i] == *name {
            assert(ignored.deep_view()[i as int] == name@);
            return true;
        }
        i = i + 1;
    }
    false
}

/// Partitions a signature's parameters into memoized and ignored roles, in
/// declaration order.
///
/// Every parameter must bind by a plain identifier; the first one that does
/// not makes the whole signature unsupported. A parameter is ignored exactly
/// when its name is among the configuration's `Ignore` names; everything
/// else is memoized.
pub fn check_signature(sig: &FunctionSignature, options: &CacheOptions) -> (r: Result<
    Vec<FnArgument>,
    GenError,
>)
    ensures
        r is Ok <==> all_plain_idents(sig.params@),
        r is Err ==> r->Err_0 == GenError::UnsupportedSignature(SignatureFault::NonIdentifierPattern),
        r is Ok ==> classified(sig.params@, options.ignore.deep_view(), r->Ok_0@),
{
    let mut out: Vec<FnArgument> = Vec::new();
    let n = sig.params.len();
    let mut i: usize = 0;
    while i < n
        invariant
            0 <= i <= n,
            n == sig.params@.len(),
            forall|j: int| 0 <= j < i ==> sig.params@[j].pattern is Ident,
            classified(sig.params@.take(i as int), options.ignore.deep_view(), out@),
        decreases n - i,
    {
        match &sig.params[i].pattern {
            ParamPattern::Ident(name) => {
                let memoized = !contains_name(&options.ignore, name);
                out.push(FnArgument {
                    arg_type: sig.params[i].ty.clone(),
                    arg_name: name.clone(),
                    is_memoized: memoized,
                });
            },
            ParamPattern::Other => {
                return Err(GenError::UnsupportedSignature(SignatureFault::NonIdentifierPattern));
            },
        }
        i = i + 1;
    }
    proof {
        assert(sig.params@.take(n as int) =~= sig.params@);
    }
    Ok(out)
}

/// The types of the memoized parameters, in declaration order: the ordered
/// components of the cache's key tuple type.
pub open spec fn memoized_types(ps: Seq<FnArgument>) -> Seq<Seq<char>>
    decreases ps.len(),
{
    if ps.len() == 0 {
        Seq::empty()
    } else {
        (if ps[0].is_memoized {
            seq![ps[0].arg_type@]
        } else {
            Seq::empty()
        }) + memoized_types(ps.drop_first())
    }
}

/// The names of the memoized parameters, in declaration order: the
/// components of the key-building expression.
pub open spec fn memoized_names(ps: Seq<FnArgument>) -> Seq<Seq<char>>
    decreases ps.len(),
{
    if ps.len() == 0 {
        Seq::empty()
    } else {
        (if ps[0].is_memoized {
            seq![ps[0].arg_name@]
        } else {
            Seq::empty()
        }) + memoized_names(ps.drop_first())
    }
}

proof fn lemma_memoized_take_step(ps: Seq<FnArgument>, i: int)
    requires
        0 <= i < ps.len(),
    ensures
        memoized_types(ps.take(i + 1)) == memoized_types(ps.take(i)) + (if ps[i].is_memoized {
            seq![ps[i].arg_type@]
        } else {
            Seq::<Seq<char>>::empty()
        }),
        memoized_names(ps.take(i + 1)) == memoized_names(ps.take(i)) + (if ps[i].is_memoized {
            seq![ps[i].arg_name@]
        } else {
            Seq::<Seq<char>>::empty()
        }),
    decreases i,
{
    if i == 0 {
        assert(ps.take(1) =~= seq![ps[0]]);
        assert(ps.take(1).drop_first() =~= Seq::empty());
        assert(ps.take(0) =~= Seq::empty());
        assert(memoized_types(ps.take(1).drop_first()) =~= Seq::<Seq<char>>::empty());
        assert(memoized_names(ps.take(1).drop_first()) =~= Seq::<Seq<char>>::empty());
    } else {
        lemma_memoized_take_step(ps.drop_first(), i - 1);
        assert(ps.take(i + 1).drop_first() =~= ps.drop_first().take(i));
        assert(ps.take(i).drop_first() =~= ps.drop_first().take(i - 1));
    }
}

/// The memoized parameters' types, in order: the ordered tuple of these
/// types is the cache's key type.
pub fn memoized_input_types(params: &Vec<FnArgument>) -> (r: Vec<String>)
    ensures
        r.deep_view() == memoized_types(params@),
{
    let mut out: Vec<String> = Vec::new();
    let mut i: usize = 0;
    while i < params.len()
        invariant
            0 <= i <= params@.len(),
            out.deep_view() == memoized_types(params@.take(i as int)),
        decreases params@.len() - i,
    {
        let ghost prev = out.deep_view();
        if params[i].is_memoized {
            out.push(params[i].arg_type.clone());
            proof {
                assert(out.deep_view() =~= prev.push(params@[i as int].arg_type@));
                assert(prev.push(params@[i as int].arg_type@) =~= prev + seq![
                    params@[i as int].arg_type@,
                ]);
            }
        }
        proof {
            lemma_memoized_take_step(params@, i as int);
            if !params@[i as int].is_memoized {
                assert(prev + Seq::<Seq<char>>::empty() =~= prev);
            }
        }
        i = i + 1;
    }
    proof {
        assert(params@.take(params@.len() as int) =~= params@);
    }
    out
}

/// The memoized parameters' names, in order: the ordered tuple of these
/// names builds the cache key.
pub fn memoized_input_names(params: &Vec<FnArgument>) -> (r: Vec<String>)
    ensures
        r.deep_view() == memoized_names(params@),
{
    let mut out: Vec<String> = Vec::new();
    let mut i: usize = 0;
    while i < params.len()
        invariant
            0 <= i <= params@.len(),
            out.deep_view() == memoized_names(params@.take(i as int)),
        decreases params@.len() - i,
    {
        let ghost prev = out.deep_view();
        if params[i].is_memoized {
            out.push(params[i].arg_name.clone());
            proof {
                assert(out.deep_view() =~= prev.push(params@[i as int].arg_name@));
                assert(prev.push(params@[i as int].arg_name@) =~= prev + seq![
                    params@[i as int].arg_name@,
                ]);
            }
        }
        proof {
            lemma_memoized_take_step(params@, i as int);
            if !params@[i as int].is_memoized {
                assert(prev + Seq::<Seq<char>>::empty() =~= prev);
            }
        }
        i = i + 1;
    }
    proof {
        assert(params@.take(params@.len() as int) =~= params@);
    }
    out
}

} // verus!

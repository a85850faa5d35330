//! The rebind mapping, computed over type descriptors.
//!
//! A composite type parameterized by lifetimes, ordinary type parameters
//! and constant parameters gets its rebind mapping mechanically from its
//! parameter list: every lifetime parameter is replaced by the single
//! target lifetime, every type parameter is carried through unchanged but
//! bounded to outlive the target, and every constant parameter is carried
//! through unchanged. [`rebind_mapping`] computes that mapping; a code
//! generator only has to parse a declaration into [`GenericParam`]s and
//! print the result.

use vstd::prelude::*;

verus! {

/// One declared generic parameter of a composite type.
#[derive(Clone, PartialEq, Eq, Debug)]
pub enum GenericParam {
    /// A lifetime parameter; its declared name is irrelevant to the
    /// mapping, which replaces it wholesale.
    Lifetime { name: String },
    /// An ordinary type parameter.
    Type { name: String },
    /// A constant parameter and the text of its type.
    Const { name: String, ty: String },
}

/// One parameter of the emitted implementation's own generic list.
#[derive(Clone, PartialEq, Eq, Debug)]
pub enum ImplParam {
    /// The target lifetime itself.
    Target,
    /// A type parameter, bounded to outlive the target lifetime.
    Outlives { name: String },
    /// A constant parameter, redeclared with its type.
    ConstDecl { name: String, ty: String },
}

/// One generic argument in an application of the mapped type.
#[derive(Clone, PartialEq, Eq, Debug)]
pub enum Arg {
    /// An elided lifetime, standing for whatever the source had.
    Elided,
    /// The target lifetime.
    Target,
    /// A type or constant parameter, carried through by name.
    Named { name: String },
}

/// The rebind mapping for one composite type: the implementation's
/// parameter list, the arguments of the type as implemented for, and the
/// arguments of the type the mapping rebinds to.
pub struct RebindMapping {
    pub impl_params: Vec<ImplParam>,
    pub type_args: Vec<Arg>,
    pub out_args: Vec<Arg>,
}

/// The outlives bounds contributed by the type parameters of `ps`, in
/// declaration order.
pub open spec fn outlives_params(ps: Seq<GenericParam>) -> Seq<ImplParam>
    decreases ps.len(),
{
    if ps.len() == 0 {
        Seq::empty()
    } else {
        outlives_params(ps.drop_last()) + (match ps.last() {
            GenericParam::Type { name } => seq![ImplParam::Outlives { name }],
            _ => Seq::empty(),
        })
    }
}

/// The redeclarations contributed by the constant parameters of `ps`, in
/// declaration order.
pub open spec fn const_decl_params(ps: Seq<GenericParam>) -> Seq<ImplParam>
    decreases ps.len(),
{
    if ps.len() == 0 {
        Seq::empty()
    } else {
        const_decl_params(ps.drop_last()) + (match ps.last() {
            GenericParam::Const { name, ty } => seq![ImplParam::ConstDecl { name, ty }],
            _ => Seq::empty(),
        })
    }
}

/// One argument `rep` for each lifetime parameter of `ps`.
pub open spec fn lifetime_args(ps: Seq<GenericParam>, rep: Arg) -> Seq<Arg>
    decreases ps.len(),
{
    if ps.len() == 0 {
        Seq::empty()
    } else {
        lifetime_args(ps.drop_last(), rep) + (match ps.last() {
            GenericParam::Lifetime { .. } => seq![rep],
            _ => Seq::empty(),
        })
    }
}

/// The type parameters of `ps` carried through by name.
pub open spec fn type_ident_args(ps: Seq<GenericParam>) -> Seq<Arg>
    decreases ps.len(),
{
    if ps.len() == 0 {
        Seq::empty()
    } else {
        type_ident_args(ps.drop_last()) + (match ps.last() {
            GenericParam::Type { name } => seq![Arg::Named { name }],
            _ => Seq::empty(),
        })
    }
}

/// The constant parameters of `ps` carried through by name.
pub open spec fn const_ident_args(ps: Seq<GenericParam>) -> Seq<Arg>
    decreases ps.len(),
{
    if ps.len() == 0 {
        Seq::empty()
    } else {
        const_ident_args(ps.drop_last()) + (match ps.last() {
            GenericParam::Const { name, .. } => seq![Arg::Named { name }],
            _ => Seq::empty(),
        })
    }
}

/// The full argument list of the type as implemented for: every lifetime
/// elided, every other parameter by name.
pub open spec fn erased_args(ps: Seq<GenericParam>) -> Seq<Arg> {
    lifetime_args(ps, Arg::Elided) + type_ident_args(ps) + const_ident_args(ps)
}

/// The full argument list of the rebound type: every lifetime replaced by
/// the target, every other parameter by name.
pub open spec fn target_args(ps: Seq<GenericParam>) -> Seq<Arg> {
    lifetime_args(ps, Arg::Target) + type_ident_args(ps) + const_ident_args(ps)
}

/// Compute the rebind mapping of a parameter list: the implementation is
/// generic over the target lifetime, then over each type parameter bounded
/// to outlive it, then over each constant parameter; the source type elides
/// every lifetime, and the output type binds every lifetime to the target,
/// with type and constant parameters carried through unchanged.
pub fn rebind_mapping(params: &Vec<GenericParam>) -> (m: RebindMapping)
    ensures
        m.impl_params@ == seq![ImplParam::Target] + outlives_params(params@) + const_decl_params(
            params@,
        ),
        m.type_args@ == erased_args(params@),
        m.out_args@ == target_args(params@),
{
    let mut impl_params: Vec<ImplParam> = Vec::new();
    impl_params.push(ImplParam::Target);
    let mut type_args: Vec<Arg> = Vec::new();
    let mut out_args: Vec<Arg> = Vec::new();

    let n = params.len();

    let mut i: usize = 0;
    while i < n
        invariant
            n == params@.len(),
            i <= n,
            impl_params@ == seq![ImplParam::Target],
            type_args@ == lifetime_args(params@.take(i as int), Arg::Elided),
            out_args@ == lifetime_args(params@.take(i as int), Arg::Target),
        decreases n - i,
    {
        match &params[i] {
            GenericParam::Lifetime { .. } => {
                type_args.push(Arg::Elided);
                out_args.push(Arg::Target);
            },
            _ => {},
        }
        proof {
            assert(params@.take(i + 1).drop_last() =~= params@.take(i as int));
            assert(params@.take(i + 1).last() == params@[i as int]);
            assert(type_args@ =~= lifetime_args(params@.take(i + 1), Arg::Elided));
            assert(out_args@ =~= lifetime_args(params@.take(i + 1), Arg::Target));
        }
        i += 1;
    }

    proof {
        assert(params@.take(n as int) =~= params@);
        assert(impl_params@ =~= seq![ImplParam::Target] + outlives_params(params@.take(0)));
        assert(type_args@ =~= lifetime_args(params@, Arg::Elided) + type_ident_args(
            params@.take(0),
        ));
        assert(out_args@ =~= lifetime_args(params@, Arg::Target) + type_ident_args(
            params@.take(0),
        ));
    }

    let mut i: usize = 0;
    while i < n
        invariant
            n == params@.len(),
            i <= n,
            impl_params@ == seq![ImplParam::Target] + outlives_params(params@.take(i as int)),
            type_args@ == lifetime_args(params@, Arg::Elided) + type_ident_args(
                params@.take(i as int),
            ),
            out_args@ == lifetime_args(params@, Arg::Target) + type_ident_args(
                params@.take(i as int),
            ),
        decreases n - i,
    {
        match &params[i] {
            GenericParam::Type { name } => {
                impl_params.push(ImplParam::Outlives { name: name.clone() });
                type_args.push(Arg::Named { name: name.clone() });
                out_args.push(Arg::Named { name: name.clone() });
            },
            _ => {},
        }
        proof {
            assert(params@.take(i + 1).drop_last() =~= params@.take(i as int));
            assert(params@.take(i + 1).last() == params@[i as int]);
            assert(impl_params@ =~= seq![ImplParam::Target] + outlives_params(
                params@.take(i + 1),
            ));
            assert(type_args@ =~= lifetime_args(params@, Arg::Elided) + type_ident_args(
                params@.take(i + 1),
            ));
            assert(out_args@ =~= lifetime_args(params@, Arg::Target) + type_ident_args(
                params@.take(i + 1),
            ));
        }
        i += 1;
    }

    proof {
        assert(params@.take(n as int) =~= params@);
        assert(impl_params@ =~= seq![ImplParam::Target] + outlives_params(params@)
            + const_decl_params(params@.take(0)));
        assert(type_args@ =~= lifetime_args(params@, Arg::Elided) + type_ident_args(params@)
            + const_ident_args(params@.take(0)));
        assert(out_args@ =~= lifetime_args(params@, Arg::Target) + type_ident_args(params@)
            + const_ident_args(params@.take(0)));
    }

    let mut i: usize = 0;
    while i < n
        invariant
            n == params@.len(),
            i <= n,
            impl_params@ == seq![ImplParam::Target] + outlives_params(params@) + const_decl_params(
                params@.take(i as int),
            ),
            type_args@ == lifetime_args(params@, Arg::Elided) + type_ident_args(params@)
                + const_ident_args(params@.take(i as int)),
            out_args@ == lifetime_args(params@, Arg::Target) + type_ident_args(params@)
                + const_ident_args(params@.take(i as int)),
        decreases n - i,
    {
        match &params[i] {
            GenericParam::Const { name, ty } => {
                impl_params.push(ImplParam::ConstDecl { name: name.clone(), ty: ty.clone() });
                type_args.push(Arg::Named { name: name.clone() });
                out_args.push(Arg::Named { name: name.clone() });
            },
            _ => {},
        }
        proof {
            assert(params@.take(i + 1).drop_last() =~= params@.take(i as int));
            assert(params@.take(i + 1).last() == params@[i as int]);
            assert(impl_params@ =~= seq![ImplParam::Target] + outlives_params(params@)
                + const_decl_params(params@.take(i + 1)));
            assert(type_args@ =~= lifetime_args(params@, Arg::Elided) + type_ident_args(params@)
                + const_ident_args(params@.take(i + 1)));
            assert(out_args@ =~= lifetime_args(params@, Arg::Target) + type_ident_args(params@)
                + const_ident_args(params@.take(i + 1)));
        }
        i += 1;
    }

    proof {
        assert(params@.take(n as int) =~= params@);
    }

    RebindMapping { impl_params, type_args, out_args }
}

/// Every parameter contributes exactly one argument on each side: the
/// argument lists of the mapping have the arity of the parameter list.
pub proof fn lemma_rebind_arity(ps: Seq<GenericParam>)
    ensures
        erased_args(ps).len() == ps.len(),
        target_args(ps).len() == ps.len(),
    decreases ps.len(),
{
    if ps.len() > 0 {
        lemma_rebind_arity(ps.drop_last());
    }
}

/// Every argument `lifetime_args` produces is the replacement itself.
pub proof fn lemma_lifetime_args_all(ps: Seq<GenericParam>, rep: Arg)
    ensures
        forall|i: int|
            0 <= i < lifetime_args(ps, rep).len() ==> #[trigger] lifetime_args(ps, rep)[i] == rep,
    decreases ps.len(),
{
    if ps.len() > 0 {
        lemma_lifetime_args_all(ps.drop_last(), rep);
    }
}

/// Two replacements produce lifetime argument lists of one length.
pub proof fn lemma_lifetime_args_len(ps: Seq<GenericParam>, a: Arg, b: Arg)
    ensures
        lifetime_args(ps, a).len() == lifetime_args(ps, b).len(),
    decreases ps.len(),
{
    if ps.len() > 0 {
        lemma_lifetime_args_len(ps.drop_last(), a, b);
    }
}

/// Every argument carried through for a type or constant parameter is a
/// name.
pub proof fn lemma_ident_args_named(ps: Seq<GenericParam>)
    ensures
        forall|i: int|
            0 <= i < type_ident_args(ps).len() ==> #[trigger] type_ident_args(ps)[i] is Named,
        forall|i: int|
            0 <= i < const_ident_args(ps).len() ==> #[trigger] const_ident_args(ps)[i] is Named,
    decreases ps.len(),
{
    if ps.len() > 0 {
        lemma_ident_args_named(ps.drop_last());
    }
}

/// The mapping changes only lifetimes: position by position, either the
/// source argument is an elided lifetime and the output argument is the
/// target lifetime, or both are the same carried-through name.
pub proof fn lemma_only_lifetimes_change(ps: Seq<GenericParam>)
    ensures
        erased_args(ps).len() == target_args(ps).len(),
        forall|i: int|
            0 <= i < erased_args(ps).len() ==> ((#[trigger] erased_args(ps)[i] == Arg::Elided
                && target_args(ps)[i] == Arg::Target) || (erased_args(ps)[i] == target_args(ps)[i]
                && erased_args(ps)[i] is Named)),
{
    lemma_lifetime_args_len(ps, Arg::Elided, Arg::Target);
    lemma_lifetime_args_all(ps, Arg::Elided);
    lemma_lifetime_args_all(ps, Arg::Target);
    lemma_ident_args_named(ps);
    let nl = lifetime_args(ps, Arg::Elided).len();
    assert forall|i: int| 0 <= i < erased_args(ps).len() implies ((#[trigger] erased_args(ps)[i]
        == Arg::Elided && target_args(ps)[i] == Arg::Target) || (erased_args(ps)[i]
        == target_args(ps)[i] && erased_args(ps)[i] is Named)) by {
        if i < nl {
            assert(erased_args(ps)[i] == lifetime_args(ps, Arg::Elided)[i]);
            assert(target_args(ps)[i] == lifetime_args(ps, Arg::Target)[i]);
        } else {
            let rest = type_ident_args(ps) + const_ident_args(ps);
            assert(erased_args(ps)[i] == rest[i - nl]);
            assert(target_args(ps)[i] == rest[i - nl]);
            if i - nl < type_ident_args(ps).len() {
                assert(rest[i - nl] == type_ident_args(ps)[i - nl]);
            } else {
                assert(rest[i - nl] == const_ident_args(ps)[i - nl - type_ident_args(ps).len()]);
            }
        }
    }
}

/// No lifetime of the source survives in the output: every output argument
/// is the target lifetime or a carried-through name.
pub proof fn lemma_all_lifetimes_rebound(ps: Seq<GenericParam>)
    ensures
        forall|i: int|
            0 <= i < target_args(ps).len() ==> #[trigger] target_args(ps)[i] != Arg::Elided,
{
    lemma_lifetime_args_all(ps, Arg::Target);
    lemma_ident_args_named(ps);
    let nl = lifetime_args(ps, Arg::Target).len();
    assert forall|i: int| 0 <= i < target_args(ps).len() implies #[trigger] target_args(ps)[i]
        != Arg::Elided by {
        if i < nl {
            assert(target_args(ps)[i] == lifetime_args(ps, Arg::Target)[i]);
        } else {
            let rest = type_ident_args(ps) + const_ident_args(ps);
            assert(target_args(ps)[i] == rest[i - nl]);
            if i - nl < type_ident_args(ps).len() {
                assert(rest[i - nl] == type_ident_args(ps)[i - nl]);
            } else {
                assert(rest[i - nl] == const_ident_args(ps)[i - nl - type_ident_args(ps).len()]);
            }
        }
    }
}

} // verus!

//! Validation of a raw declaration header: every non-trivial generic form is
//! rejected with a specific diagnostic, and a successful run yields the bare
//! identifier list in declaration order.

use vstd::prelude::*;

use crate::decl::{Declaration, RawDeclaration, RawParam, ValidationError};

verus! {

/// The rejection a single parameter earns, if any. A parameter's kind is
/// judged first, then its attributes, then its bounds.
pub open spec fn param_error(p: RawParam) -> Option<ValidationError> {
    match p {
        RawParam::LifetimeParam => Some(ValidationError::LifetimeOrConstParameter),
        RawParam::ConstParam => Some(ValidationError::LifetimeOrConstParameter),
        RawParam::TypeParam { name: _, bounded, attributed } => if attributed {
            Some(ValidationError::AttributedParameter)
        } else if bounded {
            Some(ValidationError::BoundedParameter)
        } else {
            None
        },
    }
}

/// The first rejection in the parameter list, scanning left to right.
pub open spec fn params_error(ps: Seq<RawParam>) -> Option<ValidationError>
    decreases ps.len(),
{
    if ps.len() == 0 {
        None
    } else if param_error(ps[0]) is Some {
        param_error(ps[0])
    } else {
        params_error(ps.drop_first())
    }
}

/// The bare identifier of a type parameter.
pub open spec fn param_name(p: RawParam) -> Seq<char> {
    match p {
        RawParam::TypeParam { name, bounded: _, attributed: _ } => name@,
        _ => Seq::<char>::empty(),
    }
}

/// The identifiers of a parameter list, order preserved.
pub open spec fn names_of(ps: Seq<RawParam>) -> Seq<Seq<char>> {
    ps.map_values(|p: RawParam| param_name(p))
}

/// The exact outcome of validation: the first per-parameter rejection, then
/// the where-clause check, then the emptiness check; `None` means accepted.
pub open spec fn validation_outcome(d: RawDeclaration) -> Option<ValidationError> {
    if params_error(d.params@) is Some {
        params_error(d.params@)
    } else if d.has_where_clause {
        Some(ValidationError::WhereClausePresent)
    } else if d.params@.len() == 0 {
        Some(ValidationError::EmptyParameterList)
    } else {
        None
    }
}

/// A clean prefix does not change the first rejection: scanning may start
/// after any run of parameters that earn none.
proof fn lemma_params_error_skip(ps: Seq<RawParam>, i: int)
    requires
        0 <= i <= ps.len(),
        forall|j: int| 0 <= j < i ==> param_error(ps[j]) is None,
    ensures
        params_error(ps) == params_error(ps.skip(i)),
    decreases i,
{
    if i > 0 {
        assert(ps.drop_first().skip(i - 1) =~= ps.skip(i));
        lemma_params_error_skip(ps.drop_first(), i - 1);
    } else {
        assert(ps.skip(0) =~= ps);
    }
}

/// Validates a raw declaration header. On success the result carries the
/// declaration's name and visibility and the bare parameter identifiers in
/// declaration order; on failure the error is exactly the one
/// `validation_outcome` assigns to this input.
pub fn validate(d: &RawDeclaration) -> (r: Result<Declaration, ValidationError>)
    ensures
        match r {
            Ok(decl) => validation_outcome(*d) is None && decl.wf()
                && decl.name@ == d.name@
                && decl.visibility == d.visibility
                && decl.parameters.deep_view() == names_of(d.params@),
            Err(e) => validation_outcome(*d) == Some(e),
        },
{
    let ghost ps = d.params@;
    let mut names: Vec<String> = Vec::new();
    let n = d.params.len();
    let mut i: usize = 0;
    while i < n
        invariant
            0 <= i <= n,
            n == ps.len(),
            ps == d.params@,
            forall|j: int| 0 <= j < i ==> param_error(ps[j]) is None,
            names@.len() == i,
            forall|j: int| 0 <= j < i ==> names@[j]@ == param_name(ps[j]),
        decreases n - i,
    {
        match &d.params[i] {
            RawParam::TypeParam { name, bounded, attributed } => {
                if *attributed {
                    proof {
                        lemma_params_error_skip(ps, i as int);
                    }
                    return Err(ValidationError::AttributedParameter);
                }
                if *bounded {
                    proof {
                        lemma_params_error_skip(ps, i as int);
                    }
                    return Err(ValidationError::BoundedParameter);
                }
                names.push(name.clone());
            },
            RawParam::LifetimeParam => {
                proof {
                    lemma_params_error_skip(ps, i as int);
                }
                return Err(ValidationError::LifetimeOrConstParameter);
            },
            RawParam::ConstParam => {
                proof {
                    lemma_params_error_skip(ps, i as int);
                }
                return Err(ValidationError::LifetimeOrConstParameter);
            },
        }
        i += 1;
    }
    proof {
        lemma_params_error_skip(ps, n as int);
        assert(ps.skip(n as int) =~= Seq::<RawParam>::empty());
    }
    if d.has_where_clause {
        return Err(ValidationError::WhereClausePresent);
    }
    if names.len() == 0 {
        return Err(ValidationError::EmptyParameterList);
    }
    proof {
        assert(names.deep_view() =~= names_of(ps));
    }
    Ok(Declaration { name: d.name.clone(), visibility: d.visibility, parameters: names })
}

/// Whether a parameter is a lifetime or const parameter.
pub open spec fn is_lifetime_or_const(p: RawParam) -> bool {
    p is LifetimeParam || p is ConstParam
}

/// Whether a type parameter carries an attribute.
pub open spec fn is_attributed(p: RawParam) -> bool {
    match p {
        RawParam::TypeParam { name: _, bounded: _, attributed } => attributed,
        _ => false,
    }
}

/// Whether a type parameter carries a non-empty bound set.
pub open spec fn is_bounded(p: RawParam) -> bool {
    match p {
        RawParam::TypeParam { name: _, bounded, attributed: _ } => bounded,
        _ => false,
    }
}

/// A parameter list none of whose entries earns a rejection earns none as a
/// whole.
proof fn lemma_params_error_none(ps: Seq<RawParam>)
    requires
        forall|j: int| 0 <= j < ps.len() ==> param_error(#[trigger] ps[j]) is None,
    ensures
        params_error(ps) is None,
    decreases ps.len(),
{
    if ps.len() > 0 {
        assert(forall|j: int| 0 <= j < ps.drop_first().len()
            ==> param_error(#[trigger] ps.drop_first()[j]) is None);
        lemma_params_error_none(ps.drop_first());
    }
}

/// When every entry earns either no rejection or the same one, and at least
/// one entry earns it, the list as a whole earns exactly that rejection.
proof fn lemma_params_error_uniform(ps: Seq<RawParam>, e: ValidationError)
    requires
        forall|j: int| 0 <= j < ps.len() ==> (param_error(#[trigger] ps[j]) is None
            || param_error(ps[j]) == Some(e)),
        exists|j: int| 0 <= j < ps.len() && param_error(#[trigger] ps[j]) == Some(e),
    ensures
        params_error(ps) == Some(e),
    decreases ps.len(),
{
    if param_error(ps[0]) is None {
        let j = choose|j: int| 0 <= j < ps.len() && param_error(#[trigger] ps[j]) == Some(e);
        assert(param_error(ps.drop_first()[j - 1]) == Some(e));
        lemma_params_error_uniform(ps.drop_first(), e);
    }
}

/// A declaration whose parameter list is empty is rejected with
/// `EmptyParameterList`. A where-clause would be rejected first, so this
/// holds of every declaration without one.
pub proof fn lemma_empty_parameter_list_rejected(d: RawDeclaration)
    requires
        d.params@.len() == 0,
        !d.has_where_clause,
    ensures
        validation_outcome(d) == Some(ValidationError::EmptyParameterList),
{
}

/// A declaration with a bounded type parameter is rejected with
/// `BoundedParameter`, whenever no parameter earns one of the rejections
/// checked earlier (a lifetime, a const, or an attribute).
pub proof fn lemma_bounded_parameter_rejected(d: RawDeclaration)
    requires
        forall|j: int| 0 <= j < d.params@.len() ==> !is_lifetime_or_const(#[trigger] d.params@[j])
            && !is_attributed(d.params@[j]),
        exists|j: int| 0 <= j < d.params@.len() && is_bounded(#[trigger] d.params@[j]),
    ensures
        validation_outcome(d) == Some(ValidationError::BoundedParameter),
{
    lemma_params_error_uniform(d.params@, ValidationError::BoundedParameter);
}

/// A declaration with a lifetime or const parameter is rejected with
/// `LifetimeOrConstParameter`, whenever no type parameter carries an
/// attribute or a bound.
pub proof fn lemma_lifetime_or_const_rejected(d: RawDeclaration)
    requires
        forall|j: int| 0 <= j < d.params@.len() ==> !is_attributed(#[trigger] d.params@[j])
            && !is_bounded(d.params@[j]),
        exists|j: int| 0 <= j < d.params@.len() && is_lifetime_or_const(#[trigger] d.params@[j]),
    ensures
        validation_outcome(d) == Some(ValidationError::LifetimeOrConstParameter),
{
    lemma_params_error_uniform(d.params@, ValidationError::LifetimeOrConstParameter);
}

/// A declaration carrying a where-clause is rejected with
/// `WhereClausePresent` even when all its parameters are bare identifiers.
pub proof fn lemma_where_clause_rejected(d: RawDeclaration)
    requires
        d.has_where_clause,
        forall|j: int| 0 <= j < d.params@.len() ==> param_error(#[trigger] d.params@[j]) is None,
    ensures
        validation_outcome(d) == Some(ValidationError::WhereClausePresent),
{
    lemma_params_error_none(d.params@);
}

} // verus!

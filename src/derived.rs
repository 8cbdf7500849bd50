//! Folding derived declarator suffixes (array dimensions) into a type.
use vstd::prelude::*;
use crate::number::{parse_usize, parsed_usize};
use crate::syntax::{ArraySize, Constant, DerivedDeclarator, Expression};
use crate::types::{ResolveError, Ty};

verus! {

/// The digits of an array size that is a plain integer literal.
pub open spec fn literal_size(size: ArraySize) -> Option<Seq<char>> {
    match size {
        ArraySize::VariableExpression(Expression::Constant(Constant::Integer(n))) => Some(n@),
        _ => None,
    }
}

/// An integer literal size that does not read as a `usize`.
pub open spec fn malformed_size(size: ArraySize) -> bool {
    literal_size(size) matches Some(digits) && parsed_usize(digits) is None
}

/// The length an array size gives: that of an integer literal, else none.
pub open spec fn size_length(size: ArraySize) -> Option<usize> {
    match literal_size(size) {
        Some(digits) => parsed_usize(digits),
        None => None,
    }
}

/// The type that the suffix `d`, at position `i`, makes of `base` alone.
pub open spec fn one_level<P>(base: Ty, d: DerivedDeclarator<P>, i: int) -> Result<Ty, ResolveError> {
    match d {
        DerivedDeclarator::Array(size) => if malformed_size(size) {
            Err(ResolveError::BadArrayLength { index: i as usize })
        } else {
            Ok(Ty::Array(size_length(size), Box::new(base)))
        },
        DerivedDeclarator::Pointer => Err(ResolveError::PointerUnsupported { index: i as usize }),
        _ => Err(ResolveError::UnsupportedDerived { index: i as usize }),
    }
}

/// Puts `next` in place of the element of the array `acc`; a type that is not
/// an array is replaced outright.
pub open spec fn rewrap(acc: Ty, next: Ty) -> Ty {
    match acc {
        Ty::Array(len, _) => Ty::Array(len, Box::new(next)),
        _ => next,
    }
}

/// The outcome of folding the first `n` suffixes of `ds` over `base`.
pub open spec fn derived_within<P>(base: Ty, ds: Seq<DerivedDeclarator<P>>, n: int) -> Result<
    Ty,
    ResolveError,
>
    decreases n,
{
    if n <= 0 {
        Ok(base)
    } else {
        match derived_within(base, ds, n - 1) {
            Err(e) => Err(e),
            Ok(acc) => match one_level(base, ds[n - 1], n - 1) {
                Err(e) => Err(e),
                Ok(next) => Ok(rewrap(acc, next)),
            },
        }
    }
}

/// The type that the suffixes `ds`, in declaration order, make of `base`.
pub open spec fn derived_resolution<P>(base: Ty, ds: Seq<DerivedDeclarator<P>>) -> Result<
    Ty,
    ResolveError,
> {
    derived_within(base, ds, ds.len() as int)
}

proof fn lemma_derived_error_persists<P>(base: Ty, ds: Seq<DerivedDeclarator<P>>, m: int, n: int)
    requires
        0 <= m <= n,
        derived_within(base, ds, m) is Err,
    ensures
        derived_within(base, ds, n) == derived_within(base, ds, m),
    decreases n - m,
{
    if m < n {
        lemma_derived_error_persists(base, ds, m, n - 1);
    }
}

/// Resolves the single suffix `d`, at position `index`, against `base_ty`.
fn inner_derived_type_<P>(base_ty: Ty, d: &DerivedDeclarator<P>, index: usize) -> (r: Result<
    Ty,
    ResolveError,
>)
    ensures
        r == one_level(base_ty, *d, index as int),
{
    match d {
        DerivedDeclarator::Array(size) => {
            if let ArraySize::VariableExpression(Expression::Constant(Constant::Integer(n))) = size {
                match parse_usize(n.as_str()) {
                    Some(len) => Ok(Ty::Array(Some(len), Box::new(base_ty))),
                    None => Err(ResolveError::BadArrayLength { index }),
                }
            } else {
                Ok(Ty::Array(None, Box::new(base_ty)))
            }
        },
        DerivedDeclarator::Pointer => Err(ResolveError::PointerUnsupported { index }),
        _ => Err(ResolveError::UnsupportedDerived { index }),
    }
}

/// Folds the derived suffixes, in declaration order, over `base_ty`. Each
/// suffix is resolved against `base_ty` itself; when the running type is an
/// array, the result becomes its element, else it replaces the running type.
pub fn derived_type_<P>(base_ty: Ty, derived: Vec<DerivedDeclarator<P>>) -> (r: Result<
    Ty,
    ResolveError,
>)
    ensures
        r == derived_resolution(base_ty, derived@),
{
    if derived.len() == 0 {
        return Ok(base_ty);
    }
    let mut derived_ty = base_ty.duplicate();
    let mut i: usize = 0;
    while i < derived.len()
        invariant
            i <= derived.len(),
            derived_within(base_ty, derived@, i as int) == Ok::<Ty, ResolveError>(derived_ty),
        decreases derived.len() - i,
    {
        let next_ty = match inner_derived_type_(base_ty.duplicate(), &derived[i], i) {
            Ok(t) => t,
            Err(e) => {
                proof {
                    lemma_derived_error_persists(base_ty, derived@, i + 1, derived.len() as int);
                }
                return Err(e);
            },
        };
        derived_ty = match derived_ty {
            Ty::Array(s, _) => Ty::Array(s, Box::new(next_ty)),
            _ => next_ty,
        };
        i = i + 1;
    }
    Ok(derived_ty)
}

} // verus!

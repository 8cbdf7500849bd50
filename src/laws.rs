//! General properties of resolution and extraction.
use vstd::prelude::*;
use crate::derived::{derived_resolution, malformed_size, size_length};
use crate::extract::declaration_info;
use crate::specifiers::{declaration_specifiers_type, specifier_qualifiers_type};
use crate::syntax::{
    ArraySize, Declaration, DeclarationSpecifier, DerivedDeclarator, SpecifierQualifier,
    TypeSpecifier,
};
use crate::types::{ResolveError, Ty};

verus! {

/// A single supported specifier resolves to its own type, in either kind of
/// specifier list: `int` to a signed 32-bit integer, `unsigned` to an
/// unsigned 32-bit integer, `bool` to the boolean type and `void` to no type.
pub proof fn lemma_single_specifier(t: TypeSpecifier)
    ensures
        declaration_specifiers_type(seq![DeclarationSpecifier::TypeSpecifier(t)])
            == specifier_qualifiers_type(seq![SpecifierQualifier::TypeSpecifier(t)]),
        t == TypeSpecifier::Int ==> declaration_specifiers_type(
            seq![DeclarationSpecifier::TypeSpecifier(t)],
        ) == Ok::<Option<Ty>, ResolveError>(Some(Ty::Int(true, 32))),
        t == TypeSpecifier::Unsigned ==> declaration_specifiers_type(
            seq![DeclarationSpecifier::TypeSpecifier(t)],
        ) == Ok::<Option<Ty>, ResolveError>(Some(Ty::Int(false, 32))),
        t == TypeSpecifier::Bool ==> declaration_specifiers_type(
            seq![DeclarationSpecifier::TypeSpecifier(t)],
        ) == Ok::<Option<Ty>, ResolveError>(Some(Ty::Bool)),
        t == TypeSpecifier::Void ==> declaration_specifiers_type(
            seq![DeclarationSpecifier::TypeSpecifier(t)],
        ) == Ok::<Option<Ty>, ResolveError>(None),
{
    reveal_with_fuel(crate::specifiers::first_unsupported, 2);
    let ds = seq![DeclarationSpecifier::TypeSpecifier(t)];
    let ss = seq![SpecifierQualifier::TypeSpecifier(t)];
    let rs = ds.map_values(|d: DeclarationSpecifier| crate::specifiers::declaration_specifier_type(d));
    assert(rs =~= ss.map_values(|s: SpecifierQualifier| crate::specifiers::specifier_qualifier_type(s)));
    assert(rs[0] == crate::specifiers::specifier_type(t));
    assert(rs.map_values(|r: Option<Option<Ty>>| crate::specifiers::supported_type(r))[0]
        == crate::specifiers::supported_type(rs[0]));
}

/// One array suffix over a base that is not itself an array: an integer
/// literal size `N` gives an array of length `N`; no size, or a size that is
/// not an integer literal, gives an array of unknown length.
pub proof fn lemma_array_suffix<P>(base: Ty, size: ArraySize)
    requires
        !(base is Array),
    ensures
        size_length(size) matches Some(n) ==> derived_resolution(
            base,
            seq![DerivedDeclarator::<P>::Array(size)],
        ) == Ok::<Ty, ResolveError>(Ty::Array(Some(n), Box::new(base))),
        crate::derived::literal_size(size) is None ==> derived_resolution(
            base,
            seq![DerivedDeclarator::<P>::Array(size)],
        ) == Ok::<Ty, ResolveError>(Ty::Array(None, Box::new(base))),
{
    reveal_with_fuel(crate::derived::derived_within, 2);
    assert(seq![DerivedDeclarator::<P>::Array(size)][0] == DerivedDeclarator::<P>::Array(size));
}

/// Two stacked array suffixes `[N][M]` over a base that is not itself an
/// array give an array of length `N` whose elements are arrays of length `M`
/// of the base.
pub proof fn lemma_two_array_suffixes<P>(base: Ty, outer: ArraySize, inner: ArraySize)
    requires
        !(base is Array),
        !malformed_size(outer),
        !malformed_size(inner),
    ensures
        derived_resolution(
            base,
            seq![DerivedDeclarator::<P>::Array(outer), DerivedDeclarator::<P>::Array(inner)],
        ) == Ok::<Ty, ResolveError>(
            Ty::Array(size_length(outer), Box::new(Ty::Array(size_length(inner), Box::new(base)))),
        ),
{
    reveal_with_fuel(crate::derived::derived_within, 3);
    let ds = seq![DerivedDeclarator::<P>::Array(outer), DerivedDeclarator::<P>::Array(inner)];
    assert(ds[0] == DerivedDeclarator::<P>::Array(outer));
    assert(ds[1] == DerivedDeclarator::<P>::Array(inner));
}

/// Two or more array suffixes over a base that is not itself an array give
/// an array with the length of the first suffix whose elements are arrays with
/// the length of the last suffix: the dimensions in between are dropped.
pub proof fn lemma_stacked_array_suffixes<P>(base: Ty, ds: Seq<DerivedDeclarator<P>>)
    requires
        !(base is Array),
        ds.len() >= 2,
        forall|i: int|
            0 <= i < ds.len() ==> (#[trigger] ds[i] matches DerivedDeclarator::Array(size)
                && !malformed_size(size)),
    ensures
        derived_resolution(base, ds) == Ok::<Ty, ResolveError>(
            Ty::Array(
                size_length(ds[0]->Array_0),
                Box::new(Ty::Array(size_length(ds[ds.len() - 1]->Array_0), Box::new(base))),
            ),
        ),
{
    lemma_stacked_prefix(base, ds, ds.len() as int);
}

proof fn lemma_stacked_prefix<P>(base: Ty, ds: Seq<DerivedDeclarator<P>>, k: int)
    requires
        !(base is Array),
        1 <= k <= ds.len(),
        forall|i: int|
            0 <= i < ds.len() ==> (#[trigger] ds[i] matches DerivedDeclarator::Array(size)
                && !malformed_size(size)),
    ensures
        k == 1 ==> crate::derived::derived_within(base, ds, k) == Ok::<Ty, ResolveError>(
            Ty::Array(size_length(ds[0]->Array_0), Box::new(base)),
        ),
        k >= 2 ==> crate::derived::derived_within(base, ds, k) == Ok::<Ty, ResolveError>(
            Ty::Array(
                size_length(ds[0]->Array_0),
                Box::new(Ty::Array(size_length(ds[k - 1]->Array_0), Box::new(base))),
            ),
        ),
    decreases k,
{
    assert(ds[k - 1] matches DerivedDeclarator::Array(size) && !malformed_size(size));
    if k == 1 {
        reveal_with_fuel(crate::derived::derived_within, 2);
    } else {
        lemma_stacked_prefix(base, ds, k - 1);
    }
}

/// A declaration with more than one declarator is refused for its number of
/// declarators, whatever its specifiers.
pub proof fn lemma_several_declarators<P>(decl: Declaration<P>)
    requires
        decl.declarators.len() >= 2,
    ensures
        declaration_info(decl) == Err::<crate::types::DeclInfo, ResolveError>(
            ResolveError::DeclaratorCount { count: decl.declarators.len() },
        ),
{
}

/// Resolution depends on the nodes alone: structurally equal specifier
/// sequences, or equal bases with structurally equal suffix sequences, give
/// equal outcomes.
pub proof fn lemma_resolution_repeatable<P>(
    ds1: Seq<DeclarationSpecifier>,
    ds2: Seq<DeclarationSpecifier>,
    base: Ty,
    derived1: Seq<DerivedDeclarator<P>>,
    derived2: Seq<DerivedDeclarator<P>>,
)
    ensures
        ds1 =~= ds2 ==> declaration_specifiers_type(ds1) == declaration_specifiers_type(ds2),
        derived1 =~= derived2 ==> derived_resolution(base, derived1) == derived_resolution(
            base,
            derived2,
        ),
{
}

} // verus!

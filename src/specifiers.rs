//! Resolving a sequence of specifier keywords into one type.
use vstd::prelude::*;
use crate::syntax::{DeclarationSpecifier, SpecifierQualifier, TypeSpecifier};
use crate::types::{ResolveError, Ty};

verus! {

/// The type one specifier denotes: `None` when it is unsupported, `Some(None)`
/// for `void`.
pub open spec fn specifier_type(t: TypeSpecifier) -> Option<Option<Ty>> {
    match t {
        TypeSpecifier::Int => Some(Some(Ty::Int(true, 32))),
        TypeSpecifier::Unsigned => Some(Some(Ty::Int(false, 32))),
        TypeSpecifier::Bool => Some(Some(Ty::Bool)),
        TypeSpecifier::Void => Some(None),
        _ => None,
    }
}

pub open spec fn declaration_specifier_type(d: DeclarationSpecifier) -> Option<Option<Ty>> {
    match d {
        DeclarationSpecifier::TypeSpecifier(t) => specifier_type(t),
        _ => None,
    }
}

pub open spec fn specifier_qualifier_type(s: SpecifierQualifier) -> Option<Option<Ty>> {
    match s {
        SpecifierQualifier::TypeSpecifier(t) => specifier_type(t),
        _ => None,
    }
}

/// Why the type at position `i` cannot stand in a multi-keyword sequence.
pub open spec fn composite_fault(t: Option<Ty>, i: int) -> Option<ResolveError> {
    match t {
        Some(Ty::Int(signed, _)) => if !signed && i > 0 {
            Some(ResolveError::UnsignedNotFirst { index: i as usize })
        } else {
            None
        },
        _ => Some(ResolveError::NotAnInteger { index: i as usize }),
    }
}

/// The first fault among the first `n` types of a multi-keyword sequence.
pub open spec fn composite_fault_within(ts: Seq<Option<Ty>>, n: int) -> Option<ResolveError>
    decreases n,
{
    if n <= 0 {
        None
    } else {
        match composite_fault_within(ts, n - 1) {
            Some(e) => Some(e),
            None => composite_fault(ts[n - 1], n - 1),
        }
    }
}

/// The integer type a fault-free multi-keyword sequence denotes. Only a
/// leading `unsigned` makes it unsigned and gives it a width; a plain `int`
/// adds no width.
pub open spec fn composite_type(ts: Seq<Option<Ty>>) -> Ty {
    if ts.len() == 0 {
        Ty::Int(true, 0)
    } else {
        match ts[0] {
            Some(Ty::Int(false, width)) => Ty::Int(false, width),
            _ => Ty::Int(true, 0),
        }
    }
}

/// The type a sequence of resolved specifiers denotes together.
pub open spec fn composed(ts: Seq<Option<Ty>>) -> Result<Option<Ty>, ResolveError> {
    if ts.len() == 1 {
        Ok(ts[0])
    } else {
        match composite_fault_within(ts, ts.len() as int) {
            Some(e) => Err(e),
            None => Ok(Some(composite_type(ts))),
        }
    }
}

/// The position of the first unsupported specifier among the first `n`.
pub open spec fn first_unsupported(rs: Seq<Option<Option<Ty>>>, n: int) -> Option<int>
    decreases n,
{
    if n <= 0 {
        None
    } else {
        match first_unsupported(rs, n - 1) {
            Some(k) => Some(k),
            None => if rs[n - 1] is None {
                Some(n - 1)
            } else {
                None
            },
        }
    }
}

pub open spec fn supported_type(r: Option<Option<Ty>>) -> Option<Ty> {
    match r {
        Some(t) => t,
        None => None,
    }
}

/// The outcome of resolving specifiers whose one-by-one types are `rs`: the
/// first unsupported one is the error, else the types are composed.
pub open spec fn resolved(rs: Seq<Option<Option<Ty>>>) -> Result<Option<Ty>, ResolveError> {
    match first_unsupported(rs, rs.len() as int) {
        Some(k) => Err(ResolveError::UnsupportedSpecifier { index: k as usize }),
        None => composed(rs.map_values(|r: Option<Option<Ty>>| supported_type(r))),
    }
}

pub open spec fn declaration_specifiers_type(ds: Seq<DeclarationSpecifier>) -> Result<
    Option<Ty>,
    ResolveError,
> {
    resolved(ds.map_values(|d: DeclarationSpecifier| declaration_specifier_type(d)))
}

pub open spec fn specifier_qualifiers_type(ss: Seq<SpecifierQualifier>) -> Result<
    Option<Ty>,
    ResolveError,
> {
    resolved(ss.map_values(|s: SpecifierQualifier| specifier_qualifier_type(s)))
}

proof fn lemma_fault_persists(ts: Seq<Option<Ty>>, m: int, n: int)
    requires
        m <= n,
        composite_fault_within(ts, m) is Some,
    ensures
        composite_fault_within(ts, n) == composite_fault_within(ts, m),
    decreases n - m,
{
    if m < n {
        lemma_fault_persists(ts, m, n - 1);
    }
}

proof fn lemma_unsupported_persists(rs: Seq<Option<Option<Ty>>>, m: int, n: int)
    requires
        m <= n,
        first_unsupported(rs, m) is Some,
    ensures
        first_unsupported(rs, n) == first_unsupported(rs, m),
    decreases n - m,
{
    if m < n {
        lemma_unsupported_persists(rs, m, n - 1);
    }
}

/// The type one type specifier denotes; `None` when it is unsupported.
pub fn type_(t: &TypeSpecifier) -> (r: Option<Option<Ty>>)
    ensures
        r == specifier_type(*t),
{
    match t {
        TypeSpecifier::Int => Some(Some(Ty::Int(true, 32))),
        TypeSpecifier::Unsigned => Some(Some(Ty::Int(false, 32))),
        TypeSpecifier::Bool => Some(Some(Ty::Bool)),
        TypeSpecifier::Void => Some(None),
        _ => None,
    }
}

/// Composes the types of several specifiers into one.
pub fn compress_type(ts: &Vec<Option<Ty>>) -> (r: Result<Option<Ty>, ResolveError>)
    ensures
        r == composed(ts@),
{
    if ts.len() == 1 {
        return Ok(
            match &ts[0] {
                Some(t) => Some(t.duplicate()),
                None => None,
            },
        );
    }
    let mut signed: bool = true;
    let mut bit_len: usize = 0;
    let mut i: usize = 0;
    while i < ts.len()
        invariant
            ts.len() != 1,
            i <= ts.len(),
            composite_fault_within(ts@, i as int) is None,
            i == 0 ==> signed && bit_len == 0,
            i > 0 ==> Ty::Int(signed, bit_len) == composite_type(ts@),
        decreases ts.len() - i,
    {
        match &ts[i] {
            Some(Ty::Int(s, w)) => {
                if !*s && i > 0 {
                    proof {
                        lemma_fault_persists(ts@, i + 1, ts.len() as int);
                    }
                    return Err(ResolveError::UnsignedNotFirst { index: i });
                }
                signed = signed && *s;
                if !*s {
                    bit_len = bit_len + *w;
                }
            },
            _ => {
                proof {
                    lemma_fault_persists(ts@, i + 1, ts.len() as int);
                }
                return Err(ResolveError::NotAnInteger { index: i });
            },
        }
        i = i + 1;
    }
    Ok(Some(Ty::Int(signed, bit_len)))
}

/// Resolves declaration specifiers into the type they denote; `Ok(None)` is `void`.
pub fn d_type_(ds: Vec<DeclarationSpecifier>) -> (r: Result<Option<Ty>, ResolveError>)
    requires
        ds.len() > 0,
    ensures
        r == declaration_specifiers_type(ds@),
{
    let ghost rs = ds@.map_values(|d: DeclarationSpecifier| declaration_specifier_type(d));
    let mut res: Vec<Option<Ty>> = Vec::new();
    let mut i: usize = 0;
    while i < ds.len()
        invariant
            i <= ds.len(),
            rs == ds@.map_values(|d: DeclarationSpecifier| declaration_specifier_type(d)),
            first_unsupported(rs, i as int) is None,
            res@ == rs.take(i as int).map_values(|r: Option<Option<Ty>>| supported_type(r)),
        decreases ds.len() - i,
    {
        let t = match &ds[i] {
            DeclarationSpecifier::TypeSpecifier(t) => type_(t),
            _ => None,
        };
        match t {
            Some(ty) => {
                res.push(ty);
            },
            None => {
                proof {
                    lemma_unsupported_persists(rs, i + 1, rs.len() as int);
                }
                return Err(ResolveError::UnsupportedSpecifier { index: i });
            },
        }
        assert(rs.take(i + 1) == rs.take(i as int).push(rs[i as int]));
        assert(res@ =~= rs.take(i + 1).map_values(|r: Option<Option<Ty>>| supported_type(r)));
        i = i + 1;
    }
    assert(rs.take(ds.len() as int) == rs);
    compress_type(&res)
}

/// Resolves specifier-qualifiers into the type they denote; `Ok(None)` is `void`.
pub fn s_type_(ss: Vec<SpecifierQualifier>) -> (r: Result<Option<Ty>, ResolveError>)
    requires
        ss.len() > 0,
    ensures
        r == specifier_qualifiers_type(ss@),
{
    let ghost rs = ss@.map_values(|s: SpecifierQualifier| specifier_qualifier_type(s));
    let mut res: Vec<Option<Ty>> = Vec::new();
    let mut i: usize = 0;
    while i < ss.len()
        invariant
            i <= ss.len(),
            rs == ss@.map_values(|s: SpecifierQualifier| specifier_qualifier_type(s)),
            first_unsupported(rs, i as int) is None,
            res@ == rs.take(i as int).map_values(|r: Option<Option<Ty>>| supported_type(r)),
        decreases ss.len() - i,
    {
        let t = match &ss[i] {
            SpecifierQualifier::TypeSpecifier(t) => type_(t),
            _ => None,
        };
        match t {
            Some(ty) => {
                res.push(ty);
            },
            None => {
                proof {
                    lemma_unsupported_persists(rs, i + 1, rs.len() as int);
                }
                return Err(ResolveError::UnsupportedSpecifier { index: i });
            },
        }
        assert(rs.take(i + 1) == rs.take(i as int).push(rs[i as int]));
        assert(res@ =~= rs.take(i + 1).map_values(|r: Option<Option<Ty>>| supported_type(r)));
        i = i + 1;
    }
    assert(rs.take(ss.len() as int) == rs);
    compress_type(&res)
}

} // verus!

//! Named declaration and function-signature records.
use vstd::prelude::*;
use crate::specifiers::{d_type_, declaration_specifiers_type};
use crate::syntax::{
    Declaration, Declarator, DeclaratorKind, DerivedDeclarator, Expression, FunctionDefinition,
};
use crate::types::{DeclInfo, FnInfo, ResolveError, Ty};

verus! {

/// The name a declarator declares, when it is a bare identifier.
pub open spec fn declarator_name<P>(decl: Declarator<P>) -> Result<String, ResolveError> {
    match decl.kind {
        DeclaratorKind::Identifier(name) => Ok(name),
        _ => Err(ResolveError::NotAnIdentifier),
    }
}

/// The record of a single-variable declaration: the number of declarators is
/// checked first, then the specifiers, then the declarator's name.
pub open spec fn declaration_info<P>(decl: Declaration<P>) -> Result<DeclInfo, ResolveError> {
    if decl.declarators.len() != 1 {
        Err(ResolveError::DeclaratorCount { count: decl.declarators.len() })
    } else {
        match declaration_specifiers_type(decl.specifiers@) {
            Err(e) => Err(e),
            Ok(None) => Err(ResolveError::VoidVariable),
            Ok(Some(ty)) => match declarator_name(decl.declarators@[0]) {
                Err(e) => Err(e),
                Ok(name) => Ok(DeclInfo { name, ty }),
            },
        }
    }
}

/// The parameters of the first function suffix at or after position `i`.
pub open spec fn parameters_from<P>(ds: Seq<DerivedDeclarator<P>>, i: int) -> Option<Seq<P>>
    decreases ds.len() - i,
{
    if i < 0 || i >= ds.len() {
        None
    } else {
        match ds[i] {
            DerivedDeclarator::Function(ps) => Some(ps@),
            _ => parameters_from(ds, i + 1),
        }
    }
}

/// The parameters of a declarator's first function suffix.
pub open spec fn parameter_list<P>(ds: Seq<DerivedDeclarator<P>>) -> Option<Seq<P>> {
    parameters_from(ds, 0)
}

/// The name of a declarator that is a bare identifier.
pub fn name_from_decl<P>(decl: &Declarator<P>) -> (r: Result<String, ResolveError>)
    ensures
        r == declarator_name(*decl),
{
    match &decl.kind {
        DeclaratorKind::Identifier(name) => Ok(name.clone()),
        _ => Err(ResolveError::NotAnIdentifier),
    }
}

/// The name of an identifier expression.
pub fn name_from_ident(ident: &Expression) -> (r: Result<String, ResolveError>)
    ensures
        r == match *ident {
            Expression::Identifier(name) => Ok::<String, ResolveError>(name),
            _ => Err(ResolveError::NotAnIdentifier),
        },
{
    match ident {
        Expression::Identifier(name) => Ok(name.clone()),
        _ => Err(ResolveError::NotAnIdentifier),
    }
}

/// The name and type of a declaration of exactly one variable. Array suffixes
/// on the declarator are not folded in here.
pub fn get_decl_info<P>(decl: Declaration<P>) -> (r: Result<DeclInfo, ResolveError>)
    requires
        decl.specifiers.len() > 0,
    ensures
        r == declaration_info(decl),
{
    if decl.declarators.len() != 1 {
        return Err(ResolveError::DeclaratorCount { count: decl.declarators.len() });
    }
    let ty = match d_type_(decl.specifiers) {
        Err(e) => {
            return Err(e);
        },
        Ok(None) => {
            return Err(ResolveError::VoidVariable);
        },
        Ok(Some(ty)) => ty,
    };
    let name = name_from_decl(&decl.declarators[0])?;
    Ok(DeclInfo { name, ty })
}

/// The parameters of the first function suffix among a declarator's suffixes.
fn args_from_func<P>(derived: Vec<DerivedDeclarator<P>>) -> (r: Option<Vec<P>>)
    ensures
        match r {
            Some(ps) => parameter_list(derived@) == Some(ps@),
            None => parameter_list(derived@) is None,
        },
{
    let mut rest = derived;
    let mut i: usize = 0;
    while i < rest.len()
        invariant
            rest@ == derived@,
            i <= derived.len(),
            parameters_from(derived@, 0) == parameters_from(derived@, i as int),
        decreases rest.len() - i,
    {
        if let DerivedDeclarator::Function(_) = &rest[i] {
            let d = rest.swap_remove(i);
            if let DerivedDeclarator::Function(ps) = d {
                return Some(ps);
            }
        }
        i = i + 1;
    }
    None
}

/// The signature of a function definition: its name, its return type from the
/// specifiers (`None` for `void`), the parameters of its first function
/// suffix and its body, passed through.
pub fn get_fn_info<P, B>(fn_def: FunctionDefinition<P, B>) -> (r: Result<FnInfo<P, B>, ResolveError>)
    requires
        fn_def.specifiers.len() > 0,
    ensures
        match declarator_name(fn_def.declarator) {
            Err(e) => r == Err::<FnInfo<P, B>, ResolveError>(e),
            Ok(name) => match declaration_specifiers_type(fn_def.specifiers@) {
                Err(e) => r == Err::<FnInfo<P, B>, ResolveError>(e),
                Ok(ret_ty) => match parameter_list(fn_def.declarator.derived@) {
                    None => r == Err::<FnInfo<P, B>, ResolveError>(ResolveError::NoParameterList),
                    Some(ps) => r matches Ok(info) && info.name == name && info.ret_ty == ret_ty
                        && info.args@ == ps && info.body == fn_def.statement,
                },
            },
        },
{
    let FunctionDefinition { specifiers, declarator, statement } = fn_def;
    let name = name_from_decl(&declarator)?;
    let ret_ty = d_type_(specifiers)?;
    match args_from_func(declarator.derived) {
        Some(args) => Ok(FnInfo { name, ret_ty, args, body: statement }),
        None => Err(ResolveError::NoParameterList),
    }
}

} // verus!

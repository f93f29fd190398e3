//! The type inspector: classification of a field's declared type by the
//! spelling of its outermost constructor.
//!
//! The two recognized wrapper names are configuration constants of the
//! generator, not resolved types: a field is optional or sequence-shaped
//! exactly when its declared type is spelled with the corresponding wrapper
//! as its first path segment, carrying exactly one generic type argument.

use vstd::prelude::*;

verus! {

use crate::GenError;
use crate::Shape;

/// A field's declared type expression, modelled by what the classifier
/// reads of it: the spelling of the whole expression, the name of its first
/// path segment (when the expression is a path type), and the spellings of
/// the generic type arguments attached to that first segment.
#[derive(Debug)]
pub struct TypeExpr {
    /// The whole type expression as written.
    pub text: String,
    /// The first path segment's name, when the expression is a path type;
    /// `None` for any other form of type expression.
    pub head: Option<String>,
    /// The generic type arguments attached to the first path segment, each
    /// as written.
    pub args: Vec<String>,
}

/// The mathematical value of a `TypeExpr`: the same three components, as
/// character sequences.
#[verifier::ext_equal]
pub ghost struct TypeExprModel {
    pub text: Seq<char>,
    pub head: Option<Seq<char>>,
    pub args: Seq<Seq<char>>,
}

impl View for TypeExpr {
    type V = TypeExprModel;

    open spec fn view(&self) -> TypeExprModel {
        TypeExprModel {
            text: self.text@,
            head: match self.head {
                Some(h) => Some(h@),
                None => None,
            },
            args: self.args.deep_view(),
        }
    }
}

/// The spelled name that marks an optional single value.
pub open spec fn spec_optional_wrapper() -> Seq<char> {
    "Option"@
}

/// The spelled name that marks an ordered sequence of values.
pub open spec fn spec_sequence_wrapper() -> Seq<char> {
    "Vec"@
}

/// The spelled name that marks an optional single value.
pub fn optional_wrapper() -> (r: &'static str)
    ensures
        r@ == spec_optional_wrapper(),
{
    "Option"
}

/// The spelled name that marks an ordered sequence of values.
pub fn sequence_wrapper() -> (r: &'static str)
    ensures
        r@ == spec_sequence_wrapper(),
{
    "Vec"
}

/// Whether `t`'s outermost constructor is spelled `wrapper`.
pub open spec fn spec_matches_wrapper(t: TypeExprModel, wrapper: Seq<char>) -> bool {
    t.head matches Some(h) && h == wrapper
}

/// The classification of a declared type by its spelled outer constructor.
pub open spec fn spec_shape_of(t: TypeExprModel) -> Shape {
    if spec_matches_wrapper(t, spec_optional_wrapper()) {
        Shape::Optional
    } else if spec_matches_wrapper(t, spec_sequence_wrapper()) {
        Shape::Sequence
    } else {
        Shape::Plain
    }
}

/// The wrapper name under which `t` was recognized; meaningful only when
/// its shape is not `Plain`.
pub open spec fn spec_wrapper_of(t: TypeExprModel) -> Seq<char> {
    if spec_matches_wrapper(t, spec_optional_wrapper()) {
        spec_optional_wrapper()
    } else {
        spec_sequence_wrapper()
    }
}

/// A recognized wrapper must carry exactly one generic type argument; a
/// plain type has nothing to check.
pub open spec fn spec_args_ok(t: TypeExprModel) -> bool {
    spec_shape_of(t) is Plain || t.args.len() == 1
}

/// The inner type of a well-formed declared type: the single wrapped type
/// for a recognized wrapper, the whole expression itself otherwise.
pub open spec fn spec_inner_of(t: TypeExprModel) -> Seq<char> {
    if spec_shape_of(t) is Plain {
        t.text
    } else {
        t.args[0]
    }
}

impl Clone for TypeExpr {
    fn clone(&self) -> (r: Self)
        ensures
            r@ == self@,
    {
        let head = match &self.head {
            Some(h) => Some(h.clone()),
            None => None,
        };
        let args = self.args.clone();
        let r = TypeExpr { text: self.text.clone(), head, args };
        proof {
            assert(r@.args =~= self@.args);
            assert(r@ =~= self@);
        }
        r
    }
}

/// Whether `ty`'s outermost constructor is the wrapper spelled `wrapper`,
/// and the wrapped type if so; `(false, the whole expression)` otherwise.
/// Fails when the wrapper matches but does not carry exactly one generic
/// type argument.
pub fn get_type_inner(ty: &TypeExpr, wrapper: &str) -> (r: Result<(bool, String), GenError>)
    ensures
        (r is Ok <==> (spec_matches_wrapper(ty@, wrapper@) ==> ty@.args.len() == 1)),
        r matches Ok((m, inner)) ==> {
            &&& m == spec_matches_wrapper(ty@, wrapper@)
            &&& inner@ == if m {
                ty@.args[0]
            } else {
                ty@.text
            }
        },
        r matches Err(e) ==> {
            &&& spec_matches_wrapper(ty@, wrapper@)
            &&& ty@.args.len() != 1
            &&& e matches GenError::WrapperArity { wrapper: w, count: c } && w@ == wrapper@ && c
                == ty@.args.len()
        },
{
    let w = String::from_str(wrapper);
    match &ty.head {
        Some(h) => {
            if *h == w {
                if ty.args.len() == 1 {
                    Ok((true, ty.args[0].clone()))
                } else {
                    Err(GenError::WrapperArity { wrapper: w, count: ty.args.len() })
                }
            } else {
                Ok((false, ty.text.clone()))
            }
        },
        None => Ok((false, ty.text.clone())),
    }
}

/// Whether `ty` is spelled as the optional wrapper, and the wrapped type.
pub fn get_option_inner(ty: &TypeExpr) -> (r: Result<(bool, String), GenError>)
    ensures
        (r is Ok <==> (spec_matches_wrapper(ty@, spec_optional_wrapper()) ==> ty@.args.len()
            == 1)),
        r matches Ok((m, inner)) ==> {
            &&& m == spec_matches_wrapper(ty@, spec_optional_wrapper())
            &&& inner@ == if m {
                ty@.args[0]
            } else {
                ty@.text
            }
        },
        r matches Err(e) ==> {
            &&& spec_matches_wrapper(ty@, spec_optional_wrapper())
            &&& ty@.args.len() != 1
            &&& e matches GenError::WrapperArity { wrapper: w, count: c } && w@
                == spec_optional_wrapper() && c == ty@.args.len()
        },
{
    get_type_inner(ty, optional_wrapper())
}

/// Whether `ty` is spelled as the sequence wrapper, and the wrapped type.
pub fn get_vec_inner(ty: &TypeExpr) -> (r: Result<(bool, String), GenError>)
    ensures
        (r is Ok <==> (spec_matches_wrapper(ty@, spec_sequence_wrapper()) ==> ty@.args.len()
            == 1)),
        r matches Ok((m, inner)) ==> {
            &&& m == spec_matches_wrapper(ty@, spec_sequence_wrapper())
            &&& inner@ == if m {
                ty@.args[0]
            } else {
                ty@.text
            }
        },
        r matches Err(e) ==> {
            &&& spec_matches_wrapper(ty@, spec_sequence_wrapper())
            &&& ty@.args.len() != 1
            &&& e matches GenError::WrapperArity { wrapper: w, count: c } && w@
                == spec_sequence_wrapper() && c == ty@.args.len()
        },
{
    get_type_inner(ty, sequence_wrapper())
}

/// Classifies a declared type: its shape and, for a recognized wrapper, the
/// single wrapped type; fails exactly when a recognized wrapper does not
/// carry exactly one generic type argument.
pub fn classify(ty: &TypeExpr) -> (r: Result<(Shape, String), GenError>)
    ensures
        (r is Ok <==> spec_args_ok(ty@)),
        r matches Ok((shape, inner)) ==> shape == spec_shape_of(ty@) && inner@ == spec_inner_of(
            ty@,
        ),
        r matches Err(e) ==> e matches GenError::WrapperArity { wrapper: w, count: c } && w@
            == spec_wrapper_of(ty@) && c == ty@.args.len(),
{
    let (is_opt, inner_opt) = match get_option_inner(ty) {
        Ok(p) => p,
        Err(e) => {
            return Err(e);
        },
    };
    if is_opt {
        return Ok((Shape::Optional, inner_opt));
    }
    let (is_vec, inner_vec) = match get_vec_inner(ty) {
        Ok(p) => p,
        Err(e) => {
            return Err(e);
        },
    };
    if is_vec {
        return Ok((Shape::Sequence, inner_vec));
    }
    Ok((Shape::Plain, inner_opt))
}

} // verus!

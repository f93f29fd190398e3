//! The record model and the orchestrator.
//!
//! A `RecordDecl` models what the generator is handed: the record's name
//! and its ordered named-field list, each field carrying its declared type
//! and its raw directives. `BuilderContext::new` classifies every field and
//! resolves its directives, failing on the first field that cannot be
//! generated; `BuilderContext::generate` (in the `emit` module) then emits
//! the builder's source text from the classified model.

use vstd::prelude::*;

verus! {

use crate::GenError;
use crate::Shape;
use crate::directive::Directive;
use crate::directive::FieldOptions;
use crate::directive::opt_text_view;
use crate::directive::resolve_options;
use crate::directive::spec_lookup;
use crate::ty::TypeExpr;
use crate::ty::classify;
use crate::ty::spec_args_ok;
use crate::ty::spec_inner_of;
use crate::ty::spec_shape_of;
use crate::ty::spec_wrapper_of;

/// One field of the input record: its name, its declared type, and the raw
/// directives attached to it.
#[derive(Debug)]
pub struct RawField {
    pub name: String,
    pub ty: TypeExpr,
    pub directives: Vec<Directive>,
}

/// The body of an input type declaration.
#[derive(Debug)]
pub enum DeclBody {
    /// A record with named fields, in declaration order.
    Named { fields: Vec<RawField> },
    /// Any other declaration shape, described for the error message.
    Other { kind: String },
}

/// An input type declaration: the declared type's name and its body.
#[derive(Debug)]
pub struct RecordDecl {
    pub name: String,
    pub body: DeclBody,
}

/// One classified field of the record.
#[derive(Debug)]
pub struct FieldDescriptor {
    /// The field's name, unique within the record.
    pub name: String,
    /// The field's type expression as written.
    pub declared: TypeExpr,
    /// The field's shape, recomputable from `declared`.
    pub shape: Shape,
    /// The wrapped type for an optional or sequence field; the declared
    /// type itself for a plain field.
    pub inner: String,
    /// The field's resolved directives.
    pub options: FieldOptions,
}

/// The name of the `each` directive.
pub open spec fn spec_each_key() -> Seq<char> {
    "each"@
}

/// The name of the `default` directive.
pub open spec fn spec_default_key() -> Seq<char> {
    "default"@
}

/// The accumulator name a raw field's directives configure, if any.
pub open spec fn spec_each_of(f: RawField) -> Option<Seq<char>> {
    spec_lookup(f.directives@, spec_each_key())
}

/// The default expression a raw field's directives configure, if any.
pub open spec fn spec_default_of(f: RawField) -> Option<Seq<char>> {
    spec_lookup(f.directives@, spec_default_key())
}

/// A raw field can be generated: its declared type classifies, and a
/// sequence field's accumulator is not named after the field itself.
pub open spec fn spec_field_ok(f: RawField) -> bool {
    &&& spec_args_ok(f.ty@)
    &&& !(spec_shape_of(f.ty@) is Sequence && (spec_each_of(f) matches Some(e) && e == f.name@))
}

/// The error reported for a raw field that cannot be generated: a wrapper
/// arity error when its declared type does not classify, a naming clash
/// otherwise.
pub open spec fn spec_field_error_matches(f: RawField, e: GenError) -> bool {
    if !spec_args_ok(f.ty@) {
        e matches GenError::WrapperArity { wrapper, count } && wrapper@ == spec_wrapper_of(f.ty@)
            && count == f.ty@.args.len()
    } else {
        e matches GenError::AccumulatorClash { field } && field@ == f.name@
    }
}

/// The descriptor built for a raw field: same name, same declared type, the
/// classified shape and inner type, and the resolved options.
pub open spec fn spec_descriptor_matches(f: RawField, d: FieldDescriptor) -> bool {
    &&& d.name@ == f.name@
    &&& d.declared@ == f.ty@
    &&& d.shape == spec_shape_of(f.ty@)
    &&& d.inner@ == spec_inner_of(f.ty@)
    &&& opt_text_view(d.options.each_name) == spec_each_of(f)
    &&& opt_text_view(d.options.default_expr) == spec_default_of(f)
}

impl FieldDescriptor {
    /// Well-formed: shape and inner type are recomputable from the declared
    /// type, and a sequence field's accumulator is not named after the
    /// field itself.
    pub open spec fn wf(self) -> bool {
        &&& spec_args_ok(self.declared@)
        &&& self.shape == spec_shape_of(self.declared@)
        &&& self.inner@ == spec_inner_of(self.declared@)
        &&& (self.shape is Sequence ==> (self.options.each_name matches Some(e) ==> e@
            != self.name@))
    }
}

/// The whole-record result of classification: the record's name and its
/// classified fields, in declaration order.
#[derive(Debug)]
pub struct BuilderContext {
    pub name: String,
    pub fields: Vec<FieldDescriptor>,
}

impl BuilderContext {
    /// Every field descriptor is well-formed.
    pub open spec fn wf(self) -> bool {
        forall|i: int| 0 <= i < self.fields@.len() ==> (#[trigger] self.fields@[i]).wf()
    }

    /// Classifies every field of the declaration and resolves its
    /// directives. Fails on a declaration that is not a named-field record,
    /// and otherwise on the first field that cannot be generated: a
    /// recognized wrapper without exactly one type argument, or a sequence
    /// field whose accumulator is named after the field itself.
    #[verifier::loop_isolation(false)]
    pub fn new(input: RecordDecl) -> (r: Result<BuilderContext, GenError>)
        ensures
            input.body matches DeclBody::Other { kind } ==> (r matches Err(e) && e
                matches GenError::UnsupportedShape { kind: k } && k@ == kind@),
            input.body matches DeclBody::Named { fields } ==> {
                &&& (r is Ok <==> (forall|i: int|
                    0 <= i < fields@.len() ==> spec_field_ok(#[trigger] fields@[i])))
                &&& (r matches Ok(ctx) ==> {
                    &&& ctx.name@ == input.name@
                    &&& ctx.fields@.len() == fields@.len()
                    &&& (forall|i: int|
                        0 <= i < fields@.len() ==> spec_descriptor_matches(
                            fields@[i],
                            #[trigger] ctx.fields@[i],
                        ))
                    &&& ctx.wf()
                })
                &&& (r matches Err(e) ==> (exists|j: int|
                    {
                        &&& 0 <= j < fields@.len()
                        &&& !spec_field_ok(#[trigger] fields@[j])
                        &&& (forall|k: int| 0 <= k < j ==> spec_field_ok(fields@[k]))
                        &&& spec_field_error_matches(fields@[j], e)
                    }))
            },
    {
        let RecordDecl { name, body } = input;
        let fields = match body {
            DeclBody::Named { fields } => fields,
            DeclBody::Other { kind } => {
                return Err(GenError::UnsupportedShape { kind });
            },
        };
        let mut fds: Vec<FieldDescriptor> = Vec::new();
        let n = fields.len();
        for i in 0..n
            invariant
                n == fields@.len(),
                fds@.len() == i,
                forall|k: int| 0 <= k < i ==> spec_field_ok(#[trigger] fields@[k]),
                forall|k: int|
                    0 <= k < i ==> spec_descriptor_matches(fields@[k], #[trigger] fds@[k]),
        {
            let f = &fields[i];
            let (shape, inner) = match classify(&f.ty) {
                Ok(p) => p,
                Err(e) => {
                    proof {
                        assert(!spec_field_ok(fields@[i as int]));
                        assert(spec_field_error_matches(fields@[i as int], e));
                    }
                    return Err(e);
                },
            };
            let options = resolve_options(&f.directives);
            if shape == Shape::Sequence {
                if let Some(each) = &options.each_name {
                    if *each == f.name {
                        let err = GenError::AccumulatorClash { field: f.name.clone() };
                        proof {
                            assert(!spec_field_ok(fields@[i as int]));
                            assert(spec_field_error_matches(fields@[i as int], err));
                        }
                        return Err(err);
                    }
                }
            }
            fds.push(
                FieldDescriptor {
                    name: f.name.clone(),
                    declared: f.ty.clone(),
                    shape,
                    inner,
                    options,
                },
            );
        }
        let ctx = BuilderContext { name, fields: fds };
        proof {
            assert forall|i: int| 0 <= i < ctx.fields@.len() implies (
            #[trigger] ctx.fields@[i]).wf() by {
                assert(spec_descriptor_matches(fields@[i], ctx.fields@[i]));
                assert(spec_field_ok(fields@[i]));
            }
        }
        Ok(ctx)
    }
}

} // verus!

//! The code emitter: from a classified field list to the source text of the
//! builder type.
//!
//! For every field the builder stores an optional slot; a sequence field
//! with an accumulator directive gets one per-element accumulator method,
//! every other field a whole-value setter named after the field. The
//! finishing operation takes each optional field as stored, falls back to
//! the configured default expression for an unset field that has one, and
//! reports the first unset required field by name. Output text is exact:
//! every contract below pins the emitted characters.

use vstd::prelude::*;

verus! {

use crate::Shape;
use crate::context::BuilderContext;
use crate::context::FieldDescriptor;

/// The suffix appended to the record's name to name the builder type.
pub open spec fn spec_builder_suffix() -> Seq<char> {
    "Builder"@
}

/// The builder type's name: the record's name followed by the suffix.
pub open spec fn spec_builder_name(ctx: BuilderContext) -> Seq<char> {
    ctx.name@ + spec_builder_suffix()
}

/// The type stored in a field's builder slot, before optional wrapping:
/// the wrapped type for an optional field (so the slot is not doubly
/// optional), the declared type for every other field.
pub open spec fn spec_storage_ty(f: FieldDescriptor) -> Seq<char> {
    if f.shape is Optional {
        f.inner@
    } else {
        f.declared@.text
    }
}

/// One storage field of the builder struct.
pub open spec fn spec_storage_field(f: FieldDescriptor) -> Seq<char> {
    "    "@ + f.name@ + ": std::option::Option<"@ + spec_storage_ty(f) + ">,\n"@
}

/// The whole-value setter for a field: stores the value and returns the
/// builder for chaining.
pub open spec fn spec_setter(f: FieldDescriptor) -> Seq<char> {
    "    pub fn "@ + f.name@ + "(mut self, v: impl Into<"@ + spec_storage_ty(f)
        + ">) -> Self {\n        self."@ + f.name@ + " = Some(v.into());\n        self\n    }\n"@
}

/// The per-element accumulator for a sequence field: appends one element to
/// the accumulated sequence, starting from an empty one.
pub open spec fn spec_accumulator(f: FieldDescriptor) -> Seq<char> {
    "    pub fn "@ + f.options.each_name->0@ + "(mut self, v: impl Into<"@ + f.inner@
        + ">) -> Self {\n        let mut data = self."@ + f.name@
        + ".take().unwrap_or_default();\n        data.push(v.into());\n        self."@ + f.name@
        + " = Some(data);\n        self\n    }\n"@
}

/// The one method emitted for a field: the accumulator for a sequence
/// field with an `each` directive, the whole-value setter otherwise.
pub open spec fn spec_method(f: FieldDescriptor) -> Seq<char> {
    if f.shape is Sequence && f.options.each_name is Some {
        spec_accumulator(f)
    } else {
        spec_setter(f)
    }
}

/// The finishing operation's assignment for one field, in priority order:
/// an optional field is taken as stored, a field with a default expression
/// falls back to it, any other field is required and reported by name when
/// unset.
pub open spec fn spec_assign(f: FieldDescriptor) -> Seq<char> {
    let prefix = "            "@ + f.name@ + ": self."@ + f.name@;
    if f.shape is Optional {
        prefix + ".take(),\n"@
    } else {
        match f.options.default_expr {
            Some(d) => prefix + ".take().unwrap_or_else(|| "@ + d@ + "),\n"@,
            None => prefix + ".take().ok_or(\""@ + f.name@ + " needs to be set!\")?,\n"@,
        }
    }
}

/// The builder's storage fields, one per record field, in declaration
/// order.
pub open spec fn spec_storage_fields(fs: Seq<FieldDescriptor>) -> Seq<char>
    decreases fs.len(),
{
    if fs.len() == 0 {
        Seq::empty()
    } else {
        spec_storage_fields(fs.drop_last()) + spec_storage_field(fs.last())
    }
}

/// The builder's methods, one per record field, in declaration order.
pub open spec fn spec_methods(fs: Seq<FieldDescriptor>) -> Seq<char>
    decreases fs.len(),
{
    if fs.len() == 0 {
        Seq::empty()
    } else {
        spec_methods(fs.drop_last()) + spec_method(fs.last())
    }
}

/// The finishing operation's assignments, in declaration order.
pub open spec fn spec_assigns(fs: Seq<FieldDescriptor>) -> Seq<char>
    decreases fs.len(),
{
    if fs.len() == 0 {
        Seq::empty()
    } else {
        spec_assigns(fs.drop_last()) + spec_assign(fs.last())
    }
}

/// The whole generated text: the builder struct, its methods and finishing
/// operation, and the zero-argument factory on the record type.
pub open spec fn spec_generate(ctx: BuilderContext) -> Seq<char> {
    let b = spec_builder_name(ctx);
    let n = ctx.name@;
    "/// Builder structure\n#[derive(Debug, Default)]\nstruct "@ + b + " {\n"@
        + spec_storage_fields(ctx.fields@) + "}\n\nimpl "@ + b + " {\n"@ + spec_methods(
        ctx.fields@,
    ) + "\n    pub fn finish(mut self) -> Result<"@ + n + ", &'static str> {\n        Ok("@ + n
        + " {\n"@ + spec_assigns(ctx.fields@) + "        })\n    }\n}\n\nimpl "@ + n
        + " {\n    fn builder() -> "@ + b + " {\n        Default::default()\n    }\n}\n"@
}

proof fn lemma_storage_fields_step(fs: Seq<FieldDescriptor>, i: int)
    requires
        0 <= i < fs.len(),
    ensures
        spec_storage_fields(fs.take(i + 1)) == spec_storage_fields(fs.take(i))
            + spec_storage_field(fs[i]),
{
    let s = fs.take(i + 1);
    assert(s.drop_last() =~= fs.take(i));
    assert(s.last() == fs[i]);
}

proof fn lemma_methods_step(fs: Seq<FieldDescriptor>, i: int)
    requires
        0 <= i < fs.len(),
    ensures
        spec_methods(fs.take(i + 1)) == spec_methods(fs.take(i)) + spec_method(fs[i]),
{
    let s = fs.take(i + 1);
    assert(s.drop_last() =~= fs.take(i));
    assert(s.last() == fs[i]);
}

proof fn lemma_assigns_step(fs: Seq<FieldDescriptor>, i: int)
    requires
        0 <= i < fs.len(),
    ensures
        spec_assigns(fs.take(i + 1)) == spec_assigns(fs.take(i)) + spec_assign(fs[i]),
{
    let s = fs.take(i + 1);
    assert(s.drop_last() =~= fs.take(i));
    assert(s.last() == fs[i]);
}

/// The type stored in a field's builder slot, as text.
pub fn storage_ty(f: &FieldDescriptor) -> (r: &str)
    ensures
        r@ == spec_storage_ty(*f),
{
    if f.shape == Shape::Optional {
        f.inner.as_str()
    } else {
        f.declared.text.as_str()
    }
}

/// Emits one storage field of the builder struct.
pub fn gen_storage_field(f: &FieldDescriptor) -> (r: String)
    ensures
        r@ == spec_storage_field(*f),
{
    let mut out = String::from_str("    ");
    out.append(f.name.as_str());
    out.append(": std::option::Option<");
    out.append(storage_ty(f));
    out.append(">,\n");
    out
}

/// Emits the one method for a field: accumulator or whole-value setter.
pub fn gen_method(f: &FieldDescriptor) -> (r: String)
    ensures
        r@ == spec_method(*f),
{
    if f.shape == Shape::Sequence {
        if let Some(each) = &f.options.each_name {
            let mut out = String::from_str("    pub fn ");
            out.append(each.as_str());
            out.append("(mut self, v: impl Into<");
            out.append(f.inner.as_str());
            out.append(">) -> Self {\n        let mut data = self.");
            out.append(f.name.as_str());
            out.append(".take().unwrap_or_default();\n        data.push(v.into());\n        self.");
            out.append(f.name.as_str());
            out.append(" = Some(data);\n        self\n    }\n");
            return out;
        }
    }
    let mut out = String::from_str("    pub fn ");
    out.append(f.name.as_str());
    out.append("(mut self, v: impl Into<");
    out.append(storage_ty(f));
    out.append(">) -> Self {\n        self.");
    out.append(f.name.as_str());
    out.append(" = Some(v.into());\n        self\n    }\n");
    out
}

/// Emits the finishing operation's assignment for one field.
pub fn gen_assign(f: &FieldDescriptor) -> (r: String)
    ensures
        r@ == spec_assign(*f),
{
    let mut out = String::from_str("            ");
    out.append(f.name.as_str());
    out.append(": self.");
    out.append(f.name.as_str());
    if f.shape == Shape::Optional {
        out.append(".take(),\n");
        return out;
    }
    if let Some(d) = &f.options.default_expr {
        out.append(".take().unwrap_or_else(|| ");
        out.append(d.as_str());
        out.append("),\n");
        return out;
    }
    out.append(".take().ok_or(\"");
    out.append(f.name.as_str());
    out.append(" needs to be set!\")?,\n");
    out
}

impl BuilderContext {
    /// Emits the builder's storage fields: every record field's slot,
    /// optionally wrapped, in declaration order.
    #[verifier::loop_isolation(false)]
    pub fn gen_optionized_fields(&self) -> (r: String)
        ensures
            r@ == spec_storage_fields(self.fields@),
    {
        let mut out = String::new();
        let n = self.fields.len();
        proof {
            assert(self.fields@.take(0) =~= Seq::<FieldDescriptor>::empty());
        }
        for i in 0..n
            invariant
                out@ == spec_storage_fields(self.fields@.take(i as int)),
        {
            let piece = gen_storage_field(&self.fields[i]);
            out.append(piece.as_str());
            proof {
                lemma_storage_fields_step(self.fields@, i as int);
            }
        }
        proof {
            assert(self.fields@.take(n as int) =~= self.fields@);
        }
        out
    }

    /// Emits the builder's methods, one per record field, in declaration
    /// order.
    #[verifier::loop_isolation(false)]
    pub fn gen_methods(&self) -> (r: String)
        ensures
            r@ == spec_methods(self.fields@),
    {
        let mut out = String::new();
        let n = self.fields.len();
        proof {
            assert(self.fields@.take(0) =~= Seq::<FieldDescriptor>::empty());
        }
        for i in 0..n
            invariant
                out@ == spec_methods(self.fields@.take(i as int)),
        {
            let piece = gen_method(&self.fields[i]);
            out.append(piece.as_str());
            proof {
                lemma_methods_step(self.fields@, i as int);
            }
        }
        proof {
            assert(self.fields@.take(n as int) =~= self.fields@);
        }
        out
    }

    /// Emits the finishing operation's assignments, in declaration order.
    #[verifier::loop_isolation(false)]
    pub fn gen_assigns(&self) -> (r: String)
        ensures
            r@ == spec_assigns(self.fields@),
    {
        let mut out = String::new();
        let n = self.fields.len();
        proof {
            assert(self.fields@.take(0) =~= Seq::<FieldDescriptor>::empty());
        }
        for i in 0..n
            invariant
                out@ == spec_assigns(self.fields@.take(i as int)),
        {
            let piece = gen_assign(&self.fields[i]);
            out.append(piece.as_str());
            proof {
                lemma_assigns_step(self.fields@, i as int);
            }
        }
        proof {
            assert(self.fields@.take(n as int) =~= self.fields@);
        }
        out
    }

    /// Emits the whole builder: the builder struct with one optional slot
    /// per field, its methods and finishing operation, and the
    /// zero-argument factory on the record type.
    pub fn generate(&self) -> (r: String)
        ensures
            r@ == spec_generate(*self),
    {
        let mut builder_name = self.name.clone();
        builder_name.append("Builder");
        let storage = self.gen_optionized_fields();
        let methods = self.gen_methods();
        let assigns = self.gen_assigns();
        let mut out = String::from_str("/// Builder structure\n#[derive(Debug, Default)]\nstruct ");
        out.append(builder_name.as_str());
        out.append(" {\n");
        out.append(storage.as_str());
        out.append("}\n\nimpl ");
        out.append(builder_name.as_str());
        out.append(" {\n");
        out.append(methods.as_str());
        out.append("\n    pub fn finish(mut self) -> Result<");
        out.append(self.name.as_str());
        out.append(", &'static str> {\n        Ok(");
        out.append(self.name.as_str());
        out.append(" {\n");
        out.append(assigns.as_str());
        out.append("        })\n    }\n}\n\nimpl ");
        out.append(self.name.as_str());
        out.append(" {\n    fn builder() -> ");
        out.append(builder_name.as_str());
        out.append(" {\n        Default::default()\n    }\n}\n");
        out
    }
}

} // verus!

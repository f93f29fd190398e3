//! The directive resolver: per-field `key = "value"` annotations become a
//! structured options record.
//!
//! Two keys are recognized: `each`, naming a per-element accumulator method
//! for a sequence field, and `default`, an opaque expression spliced
//! verbatim into the finishing operation. Unknown keys are ignored, so that
//! declarations written for a later generator still resolve; when a key
//! occurs more than once, the first occurrence wins.

use vstd::prelude::*;

verus! {

/// One per-field directive: a `key = "value"` annotation as attached to the
/// field in the input declaration.
#[derive(Debug)]
pub struct Directive {
    pub key: String,
    pub value: String,
}

/// The resolved options of one field.
#[derive(Debug)]
pub struct FieldOptions {
    /// The name of the per-element accumulator method, when the `each`
    /// directive is present; meaningful only for sequence-shaped fields.
    pub each_name: Option<String>,
    /// The default expression's source text, when the `default` directive
    /// is present; never parsed or evaluated by the generator.
    pub default_expr: Option<String>,
}

/// The view of an optionally present piece of text.
pub open spec fn opt_text_view(o: Option<String>) -> Option<Seq<char>> {
    match o {
        Some(s) => Some(s@),
        None => None,
    }
}

/// The value of the first directive whose key is `key`, if any.
pub open spec fn spec_lookup(ds: Seq<Directive>, key: Seq<char>) -> Option<Seq<char>>
    decreases ds.len(),
{
    if ds.len() == 0 {
        None
    } else if ds[0].key@ == key {
        Some(ds[0].value@)
    } else {
        spec_lookup(ds.drop_first(), key)
    }
}

/// Finds the first directive at or after position `from` whose key is
/// `key`, and returns its value.
fn lookup_from(ds: &Vec<Directive>, from: usize, key: &String) -> (r: Option<String>)
    requires
        from <= ds@.len(),
    ensures
        opt_text_view(r) == spec_lookup(ds@.skip(from as int), key@),
    decreases ds@.len() - from,
{
    if from == ds.len() {
        None
    } else {
        proof {
            assert(ds@.skip(from as int)[0] == ds@[from as int]);
            assert(ds@.skip(from as int).drop_first() =~= ds@.skip(from as int + 1));
        }
        if ds[from].key == *key {
            Some(ds[from].value.clone())
        } else {
            lookup_from(ds, from + 1, key)
        }
    }
}

/// Looks up the first directive with the given key.
pub fn lookup_directive(ds: &Vec<Directive>, key: &str) -> (r: Option<String>)
    ensures
        opt_text_view(r) == spec_lookup(ds@, key@),
{
    let owned = String::from_str(key);
    proof {
        assert(ds@.skip(0) =~= ds@);
    }
    lookup_from(ds, 0, &owned)
}

/// Resolves a field's raw directives into its options: the first `each`
/// directive names the accumulator method, the first `default` directive
/// gives the default expression, and every other key is ignored.
pub fn resolve_options(ds: &Vec<Directive>) -> (r: FieldOptions)
    ensures
        opt_text_view(r.each_name) == spec_lookup(ds@, "each"@),
        opt_text_view(r.default_expr) == spec_lookup(ds@, "default"@),
{
    FieldOptions { each_name: lookup_directive(ds, "each"), default_expr: lookup_directive(
        ds,
        "default",
    ) }
}

} // verus!

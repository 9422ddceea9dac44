//! The decisions of the `#[entrypoint]` attribute: which items it accepts,
//! what it reads from them, and which entry method it implements for the
//! input type. The item is given as plain values (what the attribute reads of
//! the parsed item); the generated code itself is not built here.

use vstd::prelude::*;
use vstd::string::*;
use crate::text::str_eq;

verus! {

/// An argument of a function: a `self` argument, or a typed one, by the text
/// of its type's tokens (`& str`, `Vec < u8 >`, ..).
#[derive(Debug)]
pub enum EntryArg {
    SelfArg,
    Typed(String),
}

/// The item the attribute is attached to.
#[derive(Debug)]
pub enum EntryItem {
    /// A free function.
    Fn { name: String, is_unsafe: bool, has_generics: bool, inputs: Vec<EntryArg> },
    /// An impl block, with its methods (name and arguments) in order.
    Impl {
        is_unsafe: bool,
        has_generics: bool,
        self_type: String,
        methods: Vec<(String, Vec<EntryArg>)>,
    },
    /// Any other item.
    Other,
}

/// What the attribute reads of an accepted item: the function to call, the
/// type whose method it is (for an impl), and the input type's text.
#[derive(Debug)]
pub struct EntrypointDecl {
    pub fn_name: String,
    pub self_type: Option<String>,
    pub input_type: String,
}

/// The entry method generated for an input type.
#[derive(Debug, Clone, Copy, PartialEq, Eq, Structural)]
pub enum EntryMethod {
    ApplyStr,
    ApplyBytes,
    ApplyJson,
    Apply,
    /// A `DecodedEntryPoint`, decoding JSON into the input type.
    Decoded,
}

/// The entry method for the text of an input type.
pub open spec fn entry_method_spec(t: Seq<char>) -> EntryMethod {
    if t == "& str"@ || t == "String"@ {
        EntryMethod::ApplyStr
    } else if t == "& [ u8 ]"@ || t == "Vec < u8 >"@ {
        EntryMethod::ApplyBytes
    } else if t == "& Value"@ {
        EntryMethod::ApplyJson
    } else if t == "AlgoInput"@ {
        EntryMethod::Apply
    } else {
        EntryMethod::Decoded
    }
}

/// Picks the entry method from the text of the input type's tokens: text for
/// `&str` and `String`, bytes for `&[u8]` and `Vec<u8>`, JSON for `&Value`,
/// `apply` itself for `AlgoInput`, and decoded JSON for any other type.
pub fn entry_method_for(input_type_text: &str) -> (r: EntryMethod)
    ensures
        r == entry_method_spec(input_type_text@),
{
    if str_eq(input_type_text, "& str") || str_eq(input_type_text, "String") {
        EntryMethod::ApplyStr
    } else if str_eq(input_type_text, "& [ u8 ]") || str_eq(input_type_text, "Vec < u8 >") {
        EntryMethod::ApplyBytes
    } else if str_eq(input_type_text, "& Value") {
        EntryMethod::ApplyJson
    } else if str_eq(input_type_text, "AlgoInput") {
        EntryMethod::Apply
    } else {
        EntryMethod::Decoded
    }
}

/// The index of the first method named `apply` at or after `i`, or -1.
pub open spec fn apply_index_from(methods: Seq<(String, Vec<EntryArg>)>, i: int) -> int
    decreases methods.len() - i,
{
    if i < 0 || i >= methods.len() {
        -1
    } else if methods[i].0@ == "apply"@ {
        i
    } else {
        apply_index_from(methods, i + 1)
    }
}

/// The message for an item with generics.
pub open spec fn generics_text() -> Seq<char> {
    "Generics are not supported on the #[algo_entrypoint] function"@
}

/// The message with which the attribute refuses `item`, if it does: unsafe
/// items, items with generics, a function that does not take exactly one
/// typed argument, an impl without an `apply` method taking `&self` and one
/// typed argument, and any other item.
pub open spec fn entry_refusal_spec(item: EntryItem) -> Option<Seq<char>> {
    match item {
        EntryItem::Fn { name, is_unsafe, has_generics, inputs } => if is_unsafe {
            Some("Unsafe #[entrypoint] functions are not supported"@)
        } else if has_generics {
            Some(generics_text())
        } else if inputs@.len() != 1 {
            Some("#[entrypoint] function may only take one arg"@)
        } else if inputs@[0] is SelfArg {
            Some("Attach #[entrypoint] to impl block to support &self arg"@)
        } else {
            None
        },
        EntryItem::Impl { is_unsafe, has_generics, self_type, methods } => if is_unsafe {
            Some("Unsafe #[entrypoint] impls are not supported"@)
        } else if has_generics {
            Some(generics_text())
        } else {
            let k = apply_index_from(methods@, 0);
            if k < 0 {
                Some("#[entrypoint] impl must include 'apply' method"@)
            } else if methods@[k].1@.len() != 2 {
                Some("#[entrypoint] within an impl must take &self and an input arg"@)
            } else if methods@[k].1@[1] is SelfArg {
                Some("Are you using self as a second argument?"@)
            } else {
                None
            }
        },
        EntryItem::Other => Some("#[entrypoint]` attribute must be attached to a function or impl"@),
    }
}

/// What the attribute reads of an item it accepts: the function (`apply` of
/// the impl's type, for an impl) and the type of its input argument.
pub open spec fn is_decl_of(item: EntryItem, d: EntrypointDecl) -> bool {
    match item {
        EntryItem::Fn { name, inputs, .. } => {
            &&& d.fn_name@ == name@
            &&& d.self_type is None
            &&& inputs@[0] matches EntryArg::Typed(t) && d.input_type@ == t@
        },
        EntryItem::Impl { self_type, methods, .. } => {
            let k = apply_index_from(methods@, 0);
            &&& d.fn_name@ == "apply"@
            &&& d.self_type matches Some(x) && x@ == self_type@
            &&& methods@[k].1@[1] matches EntryArg::Typed(t) && d.input_type@ == t@
        },
        EntryItem::Other => false,
    }
}

/// The first method named `apply`, if any.
#[verifier::loop_isolation(false)]
fn find_apply(methods: &Vec<(String, Vec<EntryArg>)>) -> (r: Option<usize>)
    ensures
        match r {
            Some(k) => k < methods@.len() && k as int == apply_index_from(methods@, 0),
            None => apply_index_from(methods@, 0) < 0,
        },
{
    let n = methods.len();
    let mut i: usize = 0;
    while i < n
        invariant
            n == methods@.len(),
            i <= n,
            apply_index_from(methods@, 0) == apply_index_from(methods@, i as int),
        decreases n - i,
    {
        if str_eq(methods[i].0.as_str(), "apply") {
            return Some(i);
        }
        i = i + 1;
    }
    None
}

/// Whether the `#[entrypoint]` attribute refuses `item`, with the message it
/// stops the build with.
pub fn entry_refusal(item: &EntryItem) -> (r: Option<String>)
    ensures
        match entry_refusal_spec(*item) {
            Some(m) => r matches Some(x) && x@ == m,
            None => r is None,
        },
{
    match item {
        EntryItem::Fn { is_unsafe, has_generics, inputs, .. } => {
            if *is_unsafe {
                return Some(String::from_str("Unsafe #[entrypoint] functions are not supported"));
            }
            if *has_generics {
                return Some(
                    String::from_str("Generics are not supported on the #[algo_entrypoint] function"),
                );
            }
            if inputs.len() != 1 {
                return Some(String::from_str("#[entrypoint] function may only take one arg"));
            }
            match &inputs[0] {
                EntryArg::SelfArg => Some(
                    String::from_str("Attach #[entrypoint] to impl block to support &self arg"),
                ),
                EntryArg::Typed(_) => None,
            }
        },
        EntryItem::Impl { is_unsafe, has_generics, methods, .. } => {
            if *is_unsafe {
                return Some(String::from_str("Unsafe #[entrypoint] impls are not supported"));
            }
            if *has_generics {
                return Some(
                    String::from_str("Generics are not supported on the #[algo_entrypoint] function"),
                );
            }
            let k = match find_apply(methods) {
                Some(k) => k,
                None => {
                    return Some(String::from_str("#[entrypoint] impl must include 'apply' method"));
                },
            };
            let args = &methods[k].1;
            if args.len() != 2 {
                return Some(
                    String::from_str(
                        "#[entrypoint] within an impl must take &self and an input arg",
                    ),
                );
            }
            match &args[1] {
                EntryArg::SelfArg => Some(String::from_str("Are you using self as a second argument?")),
                EntryArg::Typed(_) => None,
            }
        },
        EntryItem::Other => Some(
            String::from_str("#[entrypoint]` attribute must be attached to a function or impl"),
        ),
    }
}

/// Reads an item the `#[entrypoint]` attribute accepts (see `entry_refusal`):
/// the function to call and its input type.
pub fn entrypoint_of(item: &EntryItem) -> (r: EntrypointDecl)
    requires
        entry_refusal_spec(*item) is None,
    ensures
        is_decl_of(*item, r),
{
    match item {
        EntryItem::Fn { name, inputs, .. } => {
            let input_type = match &inputs[0] {
                EntryArg::Typed(t) => t.clone(),
                EntryArg::SelfArg => vstd::pervasive::unreached(),
            };
            EntrypointDecl { fn_name: name.clone(), self_type: None, input_type }
        },
        EntryItem::Impl { self_type, methods, .. } => {
            let k = match find_apply(methods) {
                Some(k) => k,
                None => vstd::pervasive::unreached(),
            };
            let input_type = match &methods[k].1[1] {
                EntryArg::Typed(t) => t.clone(),
                EntryArg::SelfArg => vstd::pervasive::unreached(),
            };
            EntrypointDecl {
                fn_name: String::from_str("apply"),
                self_type: Some(self_type.clone()),
                input_type,
            }
        },
        EntryItem::Other => vstd::pervasive::unreached(),
    }
}

} // verus!

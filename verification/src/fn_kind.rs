//! What kind of function an impl item is.
use vstd::prelude::*;
use crate::model::{ReturnType, Signature};
use crate::text::text_is;

verus! {

/// Is our `Self`-ty on the heap?
#[derive(Clone, Copy, Debug, PartialEq, Eq, Structural)]
pub enum HeapTy {
    /// `-> Self`: the value lives where the caller puts it
    Inline,
    /// `-> Box<Self>`
    Box,
}

/// What kind of function are we operating on?
#[derive(Clone, Copy, Debug, PartialEq, Eq, Structural)]
pub enum FunctionKind {
    /// A static method with no self-ty
    Static,
    /// A static constructor with a return type of `Self`
    Constructor(HeapTy),
    /// A method with a self-ty
    Method,
    /// A method with a self-ty that returns type `Self`
    Builder(HeapTy),
}

/// Where the return type names the type itself: `Self` or the type's own name
/// give `Some(None)`, `Box<Self>` gives `Some(Box)`, anything else `None`.
pub open spec fn self_return(output: ReturnType, self_ident: Seq<char>) -> Option<HeapTy> {
    match output {
        ReturnType::Path(p) => {
            if p@ == "Self"@ || p@ == self_ident {
                Some(HeapTy::Inline)
            } else if p@ == "Box < Self >"@ {
                Some(HeapTy::Box)
            } else {
                None
            }
        },
        _ => None,
    }
}

/// The kind of a function with this receiver and return type, in a block for `self_ident`.
pub open spec fn kind_of(has_receiver: bool, output: ReturnType, self_ident: Seq<char>) -> FunctionKind {
    match self_return(output, self_ident) {
        Some(h) => if has_receiver {
            FunctionKind::Builder(h)
        } else {
            FunctionKind::Constructor(h)
        },
        None => if has_receiver {
            FunctionKind::Method
        } else {
            FunctionKind::Static
        },
    }
}

impl FunctionKind {
    /// Classifies a function of an impl block for the type named `self_ident`.
    pub fn from_fn(sig: &Signature, self_ident: &String) -> (r: FunctionKind)
        ensures
            r == kind_of(sig.has_receiver, sig.output, self_ident@),
    {
        // If the function returns `Self` or equivalent we're working with a
        // constructor
        if let ReturnType::Path(p) = &sig.output {
            if text_is(p, "Self") || *p == *self_ident {
                if sig.has_receiver {
                    return FunctionKind::Builder(HeapTy::Inline);
                } else {
                    return FunctionKind::Constructor(HeapTy::Inline);
                }
            }
            if text_is(p, "Box < Self >") {
                if sig.has_receiver {
                    return FunctionKind::Builder(HeapTy::Box);
                } else {
                    return FunctionKind::Constructor(HeapTy::Box);
                }
            }
        }
        // If our function takes `self` in some form, we're working with a
        // method. Otherwise it's a static function.
        if sig.has_receiver {
            FunctionKind::Method
        } else {
            FunctionKind::Static
        }
    }
}

} // verus!

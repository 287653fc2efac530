//! Interface definitions and implementation blocks, as the generator reads them.
use crate::message::{methods_view, names_view, Method, MethodView};
use crate::parser::{attrs_view, Attribute, AttributeView};
use vstd::prelude::*;

verus! {

/// An interface definition: a named trait of handler methods.
pub struct ItemTrait {
    pub name: String,
    pub generics: Vec<String>,
    /// Names of the associated types it declares.
    pub assoc_types: Vec<String>,
    pub methods: Vec<Method>,
}

pub struct ItemTraitView {
    pub name: Seq<char>,
    pub generics: Seq<Seq<char>>,
    pub assoc_types: Seq<Seq<char>>,
    pub methods: Seq<MethodView>,
}

impl View for ItemTrait {
    type V = ItemTraitView;

    open spec fn view(&self) -> ItemTraitView {
        ItemTraitView {
            name: self.name@,
            generics: names_view(self.generics@),
            assoc_types: names_view(self.assoc_types@),
            methods: methods_view(self.methods@),
        }
    }
}

/// An implementation block: of the named interface `trait_`, or, where that
/// is `None`, the contract's own surface.
pub struct ItemImpl {
    pub trait_: Option<String>,
    pub attrs: Vec<Attribute>,
    pub generics: Vec<String>,
    pub methods: Vec<Method>,
}

pub struct ItemImplView {
    pub is_trait: bool,
    pub attrs: Seq<AttributeView>,
    pub generics: Seq<Seq<char>>,
    pub methods: Seq<MethodView>,
}

impl View for ItemImpl {
    type V = ItemImplView;

    open spec fn view(&self) -> ItemImplView {
        ItemImplView {
            is_trait: self.trait_ is Some,
            attrs: attrs_view(self.attrs@),
            generics: names_view(self.generics@),
            methods: methods_view(self.methods@),
        }
    }
}

} // verus!

//! Synthesis of the conversions: every declared type gets an implementation of
//! the reading and of the writing conversion, all of them in one module.

use std::collections::HashMap;
use multimap::MultiMap;
use vstd::prelude::*;
use vstd::string::*;
use crate::parser::ast::Node;
use crate::rust::ast::group_ast_views;
use crate::rust::ast::Id;
use crate::rust::ast::Impl;
use crate::rust::ast::ImplView;
use crate::rust::ast::Module;
use crate::rust::ast::module_views;
use crate::rust::ast::ModuleElement;
use crate::rust::ast::ModuleElementView;
use crate::rust::ast::ModuleView;
use crate::rust::ast::Name;
use crate::rust::ast::RustAst;
use crate::rust::ast::RustAstView;
use crate::rust::ast::SerdeTrait;
use crate::rust::context::multimap_empty;
use crate::rust::context::multimap_entries;
use crate::rust::context::no_entries;
use crate::rust::name::normalized;
use crate::sequences::concatenated;

verus! {

broadcast use group_ast_views;

/// What the synthesis of conversions may look up. It needs nothing: a
/// declaration carries all that its conversions are made of.
#[derive(Debug, PartialEq)]
pub struct SerdeGenerationContext {
    pub type_to_path: HashMap<Id, Vec<Name>>,
    pub children: MultiMap<Id, Id>,
    pub nodes: HashMap<Id, Node>,
}

impl SerdeGenerationContext {
    pub fn new() -> (r: SerdeGenerationContext)
        ensures
            r.type_to_path@ == Map::<Id, Vec<Name>>::empty(),
            multimap_entries(r.children) == no_entries(),
            r.nodes@ == Map::<Id, Node>::empty(),
    {
        SerdeGenerationContext {
            type_to_path: HashMap::new(),
            children: multimap_empty(),
            nodes: HashMap::new(),
        }
    }
}

/// The conversions of what a module element declares: for a declared type the
/// reading and the writing one, for a module those of its elements.
pub open spec fn element_conversions(e: ModuleElementView) -> Seq<ModuleElementView>
    decreases e, 0nat,
{
    match e {
        ModuleElementView::TypeDef(d) => seq![
            ModuleElementView::Impl(ImplView { trait_type: SerdeTrait::ReadFrom, for_type: d }),
            ModuleElementView::Impl(ImplView { trait_type: SerdeTrait::WriteTo, for_type: d }),
        ],
        ModuleElementView::Module(m) => module_conversions(m),
        _ => Seq::empty(),
    }
}

/// The conversions of each element of a module.
pub open spec fn conversions_by_element(m: ModuleView) -> Seq<Seq<ModuleElementView>>
    decreases m, 0nat,
{
    Seq::new(
        m.elements.len(),
        |i: int|
            if 0 <= i < m.elements.len() {
                element_conversions(m.elements[i])
            } else {
                Seq::empty()
            },
    )
}

/// The conversions of every type declared in a module or in a module inside it,
/// in the order of the declarations.
pub open spec fn module_conversions(m: ModuleView) -> Seq<ModuleElementView>
    decreases m, 1nat,
{
    concatenated(conversions_by_element(m))
}

/// The conversions of a module, named so that they can be mapped over modules.
pub open spec fn converting() -> spec_fn(ModuleView) -> Seq<ModuleElementView> {
    |m: ModuleView| module_conversions(m)
}

/// What the module of conversions starts with: the import of the error type
/// and the declarations of the conversion traits.
pub open spec fn serde_prelude() -> Seq<ModuleElementView> {
    seq![
        ModuleElementView::UseDecl("capnp::Error"@),
        ModuleElementView::TraitDef(SerdeTrait::ReadFrom),
        ModuleElementView::TraitDef(SerdeTrait::WriteTo),
    ]
}

/// The module of conversions for the modules `defs`.
pub open spec fn conversions_module(defs: Seq<ModuleView>) -> ModuleView {
    ModuleView {
        name: normalized("serde"@),
        elements: serde_prelude() + concatenated(defs.map_values(converting())),
    }
}

/// The file with the module of conversions behind its modules.
pub open spec fn with_conversions(a: RustAstView) -> RustAstView {
    RustAstView { defs: a.defs.push(conversions_module(a.defs)), ..a }
}

/// A part of the generated program whose conversions are synthesized from a
/// part `AST` of it.
pub trait SerdeGenerator<AST> {
    /// The conversions that `n` gives rise to.
    spec fn generated(n: &AST) -> Seq<ModuleElementView>;

    fn generate_serde(ctx: &SerdeGenerationContext, serde_module: &mut Module, n: &AST)
        ensures
            final(serde_module)@.name == old(serde_module)@.name,
            final(serde_module)@.elements == old(serde_module)@.elements + Self::generated(n),
    ;
}

fn append_conversions(serde_module: &mut Module, n: &Module)
    ensures
        final(serde_module)@.name == old(serde_module)@.name,
        final(serde_module)@.elements == old(serde_module)@.elements + module_conversions(n@),
    decreases n,
{
    let ghost parts = conversions_by_element(n@);
    let ghost start = serde_module@.elements;
    proof {
        assert(start + concatenated(parts.take(0)) =~= start);
    }
    let mut i: usize = 0;
    while i < n.elements.len()
        invariant
            i <= n.elements.len(),
            parts == conversions_by_element(n@),
            serde_module@.name == old(serde_module)@.name,
            start == old(serde_module)@.elements,
            serde_module@.elements == start + concatenated(parts.take(i as int)),
        decreases n.elements.len() - i,
    {
        assert(n@.elements[i as int] == n.elements[i as int]@);
        let ghost before = serde_module@.elements;
        proof {
            assert(parts.take(i + 1).drop_last() =~= parts.take(i as int));
        }
        match &n.elements[i] {
            ModuleElement::Module(m) => {
                append_conversions(serde_module, m);
            },
            ModuleElement::TypeDef(t) => {
                serde_module.elements.push(
                    ModuleElement::Impl(Impl { trait_type: SerdeTrait::ReadFrom, for_type: t.clone() }),
                );
                serde_module.elements.push(
                    ModuleElement::Impl(Impl { trait_type: SerdeTrait::WriteTo, for_type: t.clone() }),
                );
                proof {
                    assert(serde_module@.elements =~= before + element_conversions(
                        n@.elements[i as int],
                    ));
                }
            },
            _ => {
                proof {
                    assert(before + element_conversions(n@.elements[i as int]) =~= before);
                }
            },
        }
        proof {
            assert(serde_module@.elements =~= start + concatenated(parts.take(i + 1)));
        }
        i += 1;
    }
    proof {
        assert(parts.take(n.elements.len() as int) =~= parts);
    }
}

impl SerdeGenerator<Module> for Module {
    open spec fn generated(n: &Module) -> Seq<ModuleElementView> {
        module_conversions(n@)
    }

    fn generate_serde(ctx: &SerdeGenerationContext, serde_module: &mut Module, n: &Module) {
        append_conversions(serde_module, n);
    }
}

impl RustAst {
    /// Adds the module of conversions for every declared type.
    pub fn generate_serde(ctx: &SerdeGenerationContext, n: &RustAst) -> (r: RustAst)
        ensures
            r@ == with_conversions(n@),
    {
        let mut elements: Vec<ModuleElement> = Vec::new();
        elements.push(ModuleElement::UseDecl(String::from_str("capnp::Error")));
        elements.push(ModuleElement::TraitDef(SerdeTrait::ReadFrom));
        elements.push(ModuleElement::TraitDef(SerdeTrait::WriteTo));
        let mut serde_module = Module {
            name: Name::from(&String::from_str("serde")),
            elements,
        };
        let ghost parts = n@.defs.map_values(converting());
        proof {
            assert(serde_module@.elements =~= serde_prelude() + concatenated(parts.take(0)));
        }
        let mut defs: Vec<Module> = Vec::new();
        let mut i: usize = 0;
        while i < n.defs.len()
            invariant
                i <= n.defs.len(),
                parts == n@.defs.map_values(converting()),
                defs.len() == i,
                forall|j: int| 0 <= j < i ==> defs[j]@ == n.defs[j]@,
                serde_module@.name == normalized("serde"@),
                serde_module@.elements == serde_prelude() + concatenated(parts.take(i as int)),
            decreases n.defs.len() - i,
        {
            proof {
                assert(parts.take(i + 1).drop_last() =~= parts.take(i as int));
                assert(parts[i as int] == module_conversions(n.defs[i as int]@));
            }
            defs.push(n.defs[i].clone());
            Module::generate_serde(ctx, &mut serde_module, &n.defs[i]);
            proof {
                assert(serde_module@.elements =~= serde_prelude() + concatenated(
                    parts.take(i + 1),
                ));
            }
            i += 1;
        }
        proof {
            assert(parts.take(n.defs.len() as int) =~= parts);
        }
        let ghost copied = module_views(defs@);
        defs.push(serde_module);
        let external_crate_decls = n.external_crate_decls.clone();
        let external_mod_decls = n.external_mod_decls.clone();
        proof {
            assert(copied =~= n@.defs);
            assert(module_views(defs@) =~= n@.defs.push(conversions_module(n@.defs)));
            assert(external_crate_decls@.map_values(|s: String| s@)
                =~= n.external_crate_decls@.map_values(|s: String| s@));
            assert(external_mod_decls@.map_values(|s: String| s@)
                =~= n.external_mod_decls@.map_values(|s: String| s@));
        }
        RustAst { external_crate_decls, external_mod_decls, defs }
    }
}

} // verus!

//! The compiler proper: a schema description is translated into the syntax
//! tree of the generated program, the references in the tree are resolved, the
//! conversions are synthesized, and the tree is written as text.

use vstd::prelude::*;
use crate::error::Error;
use crate::error::outcome;
use crate::error::Unsupported;
use crate::parser::ast::CodeGeneratorRequest;
use crate::parser::ast::CodeGeneratorRequestView;
use crate::rust::ast::RustAst;
use crate::rust::ast::RustAstView;
use crate::rust::code::ast_code;
use crate::rust::code::ast_renderable;
use crate::rust::code::ToCode;
use crate::rust::context::ContextView;
use crate::rust::context::lemma_closed_index_names_files;
use crate::rust::context::no_entries;
use crate::rust::context::TranslationContext;
use crate::rust::resolution::no_symbols;
use crate::rust::resolution::ResolutionContext;
use crate::rust::resolution::Resolver;
use crate::rust::resolution::resolved_ast;
use crate::rust::resolution::with_modules;
use crate::rust::serde::SerdeGenerationContext;
use crate::rust::serde::with_conversions;
use crate::rust::translation::translated_ast;
use crate::rust::translation::Translator;

pub mod access;
pub mod ast;
pub mod bridge;
pub mod code;
pub mod completeness;
pub mod context;
pub mod fragments;
pub mod laws;
pub mod name;
pub mod resolution;
pub mod serde;
pub mod translation;

verus! {

/// The context of a translation that has indexed nothing yet. `existing` names
/// the modules that are already there beside the generated file.
pub open spec fn empty_context(existing: Seq<Seq<char>>) -> ContextView {
    ContextView {
        existing_modules_in_out_dir: existing,
        filename: Seq::empty(),
        modules: Seq::empty(),
        names: Map::empty(),
        children: no_entries(),
        nodes: Map::empty(),
    }
}

/// The syntax tree for a schema description, with every reference resolved in
/// the symbol table of the tree itself; or the first failure.
pub open spec fn resolved_translation(
    cgr: CodeGeneratorRequestView,
    existing: Seq<Seq<char>>,
) -> Result<RustAstView, Error> {
    match translated_ast(empty_context(existing), cgr) {
        Err(e) => Err(e),
        Ok(a) => resolved_ast(with_modules(no_symbols(), a.defs), a),
    }
}

/// The text of the generated file for a schema description; or the first
/// failure. A tree that holds a type for which no conversion can be written is
/// a failure too.
pub open spec fn generated_code(
    cgr: CodeGeneratorRequestView,
    existing: Seq<Seq<char>>,
) -> Result<Seq<char>, Error> {
    match resolved_translation(cgr, existing) {
        Err(e) => Err(e),
        Ok(a) => if ast_renderable(with_conversions(a)) {
            Ok(ast_code(with_conversions(a)))
        } else {
            Err(Error::UnsupportedConstruct(Unsupported::Conversion))
        },
    }
}

/// Translates a schema description and resolves the references of the result.
/// `existing_modules_in_out_dir` names the modules that are already there
/// beside the generated file; only those are declared.
pub fn translate_with(cgr: &CodeGeneratorRequest, existing_modules_in_out_dir: Vec<String>) -> (r:
    Result<RustAst, Error>)
    ensures
        outcome(r) == resolved_translation(
            cgr@,
            existing_modules_in_out_dir@.map_values(|s: String| s@),
        ),
{
    let ctx = TranslationContext::new(existing_modules_in_out_dir);
    proof {
        lemma_closed_index_names_files(ctx@, cgr@.nodes);
    }
    let translated = match RustAst::try_translate(&ctx, cgr) {
        Ok(a) => a,
        Err(e) => {
            return Err(e);
        },
    };
    let mut resolution_context = ResolutionContext::new();
    RustAst::build_context(&mut resolution_context, &translated);
    RustAst::try_resolve(&resolution_context, &translated)
}

/// Translates a schema description for a place where no module exists yet, and
/// resolves the references of the result.
pub fn translate(cgr: &CodeGeneratorRequest) -> (r: Result<RustAst, Error>)
    ensures
        outcome(r) == resolved_translation(cgr@, Seq::empty()),
{
    let none: Vec<String> = Vec::new();
    proof {
        assert(none@.map_values(|s: String| s@) =~= Seq::empty());
    }
    translate_with(cgr, none)
}

/// Writes a syntax tree as text.
pub fn to_code(ast: &RustAst) -> (r: String)
    requires
        ast_renderable(ast@),
    ensures
        r@ == ast_code(ast@),
{
    ast.to_code()
}

/// Compiles a schema description into the text of the generated file.
/// `existing_modules_in_out_dir` names the modules that are already there
/// beside the generated file.
pub fn code_gen_with(cgr: &CodeGeneratorRequest, existing_modules_in_out_dir: Vec<String>) -> (r:
    Result<String, Error>)
    ensures
        match r {
            Ok(text) => generated_code(
                cgr@,
                existing_modules_in_out_dir@.map_values(|s: String| s@),
            ) == Ok::<Seq<char>, Error>(text@),
            Err(e) => generated_code(
                cgr@,
                existing_modules_in_out_dir@.map_values(|s: String| s@),
            ) == Err::<Seq<char>, Error>(e),
        },
{
    let ast0 = match translate_with(cgr, existing_modules_in_out_dir) {
        Ok(a) => a,
        Err(e) => {
            return Err(e);
        },
    };
    let ast1 = RustAst::generate_serde(&SerdeGenerationContext::new(), &ast0);
    if ast1.is_renderable() {
        Ok(to_code(&ast1))
    } else {
        Err(Error::UnsupportedConstruct(Unsupported::Conversion))
    }
}

/// Compiles a schema description into the text of the generated file, for a
/// place where no module exists yet.
pub fn code_gen(cgr: &CodeGeneratorRequest) -> (r: Result<String, Error>)
    ensures
        match r {
            Ok(text) => generated_code(cgr@, Seq::empty()) == Ok::<Seq<char>, Error>(text@),
            Err(e) => generated_code(cgr@, Seq::empty()) == Err::<Seq<char>, Error>(e),
        },
{
    let none: Vec<String> = Vec::new();
    proof {
        assert(none@.map_values(|s: String| s@) =~= Seq::empty());
    }
    code_gen_with(cgr, none)
}

} // verus!

//! The context of a translation: the index of all nodes of a schema
//! description by id, the names of their declarations, and the place in the
//! schema at which the translation stands.

use std::collections::HashMap;
use multimap::MultiMap;
use vstd::prelude::*;
use vstd::std_specs::hash::*;
use vstd::string::*;
use crate::error::Error;
use crate::error::outcome;
use crate::parser::ast::Node;
use crate::parser::ast::NodeView;
use crate::parser;
use crate::rust::ast::FullyQualifiedName;
use crate::rust::ast::group_ast_views;
use crate::rust::ast::Id;
use crate::rust::ast::Name;
use crate::rust::ast::NameView;
use crate::rust::ast::path_view;
use crate::rust::ast::PathView;
use crate::rust::name::normalized;
use crate::sequences::concatenated;
use crate::sequences::first_found;
use crate::sequences::lemma_first_found_skip;
use crate::text::byte_prefix;
use crate::text::cuts_at;
use crate::text::lowercase;
use crate::text::replace_char;
use crate::text::replace_char_in;
use crate::text::take_bytes;

verus! {

broadcast use {group_ast_views, group_hash_axioms};

//
// The scope index
//

/// The multimap of an outside crate, which keeps for each key the values
/// inserted under it.
#[verifier::external_type_specification]
#[verifier::external_body]
#[verifier::reject_recursive_types(K)]
#[verifier::reject_recursive_types(V)]
#[verifier::reject_recursive_types(S)]
pub struct ExMultiMap<K, V, S>(MultiMap<K, V, S>);

/// What a multimap holds: for each key that was inserted, the values inserted
/// under it, in the order of their insertion.
pub uninterp spec fn multimap_entries(m: MultiMap<u64, u64>) -> Map<u64, Seq<u64>>;

/// The entries of a multimap that holds nothing.
pub open spec fn no_entries() -> Map<u64, Seq<u64>> {
    Map::empty()
}

/// The entries after one more value was inserted under `k`: the value stands
/// behind the values that `k` already had.
pub open spec fn with_entry(entries: Map<u64, Seq<u64>>, k: u64, v: u64) -> Map<u64, Seq<u64>> {
    entries.insert(
        k,
        if entries.contains_key(k) {
            entries[k].push(v)
        } else {
            seq![v]
        },
    )
}

/// `MultiMap::new`: the new multimap holds nothing.
#[verifier::external_body]
pub(crate) fn multimap_empty() -> (m: MultiMap<u64, u64>)
    ensures
        multimap_entries(m) == no_entries(),
{
    MultiMap::new()
}

/// `MultiMap::insert`: the value is pushed behind the values that the key
/// already has; a key that had none gets the value alone.
#[verifier::external_body]
fn multimap_insert(m: &mut MultiMap<u64, u64>, k: u64, v: u64)
    ensures
        multimap_entries(*final(m)) == with_entry(multimap_entries(*old(m)), k, v),
{
    m.insert(k, v);
}

/// `MultiMap::clone`: the copy holds what the multimap holds.
#[verifier::external_body]
fn multimap_clone(m: &MultiMap<u64, u64>) -> (r: MultiMap<u64, u64>)
    ensures
        multimap_entries(r) == multimap_entries(*m),
{
    m.clone()
}

/// What a translation knows of the schema and of where it stands in it: the
/// file it translates, the path of the module it is in, and the index of all
/// nodes by id.
#[derive(Debug, PartialEq)]
pub struct TranslationContext {
    pub existing_modules_in_out_dir: Vec<String>,
    pub filename: String,
    pub modules: Vec<Name>,
    pub names: HashMap<Id, Name>,
    pub children: MultiMap<Id, Id>,
    pub nodes: HashMap<Id, Node>,
}

/// The value of a [`TranslationContext`].
pub struct ContextView {
    pub existing_modules_in_out_dir: Seq<Seq<char>>,
    pub filename: Seq<char>,
    pub modules: PathView,
    /// The name of each declaration.
    pub names: Map<Id, NameView>,
    /// The nodes declared in each scope, in the order of the description.
    pub children: Map<Id, Seq<Id>>,
    /// The node with each id.
    pub nodes: Map<Id, NodeView>,
}

impl View for TranslationContext {
    type V = ContextView;

    open spec fn view(&self) -> ContextView {
        ContextView {
            existing_modules_in_out_dir: self.existing_modules_in_out_dir@.map_values(
                |s: String| s@,
            ),
            filename: self.filename@,
            modules: path_view(self.modules@),
            names: self.names@.map_values(|n: Name| n@),
            children: multimap_entries(self.children),
            nodes: self.nodes@.map_values(|n: Node| n@),
        }
    }
}

impl Clone for TranslationContext {
    fn clone(&self) -> (r: Self)
        ensures
            r@ == self@,
    {
        let existing_modules_in_out_dir = self.existing_modules_in_out_dir.clone();
        let modules = self.modules.clone();
        proof {
            assert(existing_modules_in_out_dir@.map_values(|s: String| s@)
                =~= self.existing_modules_in_out_dir@.map_values(|s: String| s@));
            assert(path_view(modules@) =~= path_view(self.modules@));
        }
        TranslationContext {
            existing_modules_in_out_dir,
            filename: self.filename.clone(),
            modules,
            names: self.names.clone(),
            children: multimap_clone(&self.children),
            nodes: self.nodes.clone(),
        }
    }
}

/// Whether `named` holds the id of the node and of every node that is reached
/// from it through at most `budget` steps of nesting. Only nested entries that
/// `nodes` has a node for are followed, and the id asked for is that of the
/// node found.
pub open spec fn reached_named(
    named: Set<Id>,
    nodes: Map<Id, NodeView>,
    n: NodeView,
    budget: nat,
) -> bool
    decreases budget,
{
    &&& named.contains(n.id)
    &&& if budget == 0 {
        true
    } else {
        forall|j: int|
            0 <= j < n.nested_nodes.len() && nodes.contains_key(
                (#[trigger] n.nested_nodes[j]).id,
            ) ==> reached_named(named, nodes, nodes[n.nested_nodes[j].id], (budget - 1) as nat)
    }
}

impl ContextView {
    /// The context for the file `filename`.
    pub open spec fn in_file(self, filename: Seq<char>) -> ContextView {
        ContextView { filename, ..self }
    }

    /// The context one module further in.
    pub open spec fn in_module(self, name: NameView) -> ContextView {
        ContextView { modules: self.modules.push(name), ..self }
    }

    /// The context at another place of the same schema.
    pub open spec fn at(self, filename: Seq<char>, modules: PathView) -> ContextView {
        ContextView { filename, modules, ..self }
    }

    /// Whether the index names the node and every node that is reached from
    /// it through at most `budget` steps of nesting.
    pub open spec fn names_reached(self, n: NodeView, budget: nat) -> bool {
        reached_named(self.names.dom(), self.nodes, n, budget)
    }

    /// Whether the index names the node and the nodes nested in it.
    pub open spec fn names_node(self, n: NodeView) -> bool {
        &&& self.names.contains_key(n.id)
        &&& forall|j: int|
            0 <= j < n.nested_nodes.len() ==> self.names.contains_key(
                (#[trigger] n.nested_nodes[j]).id,
            )
    }

    /// Whether the index is closed: every node is indexed by its own id, and
    /// what is nested in an indexed node has a name.
    pub open spec fn closed(self) -> bool {
        forall|id: Id| #[trigger]
            self.nodes.contains_key(id) ==> {
                &&& self.nodes[id].id == id
                &&& forall|j: int|
                    0 <= j < self.nodes[id].nested_nodes.len() ==> self.names.contains_key(
                        (#[trigger] self.nodes[id].nested_nodes[j]).id,
                    )
            }
    }
}

/// A closed index that names a node and what is nested in it names every node
/// reached from it.
pub proof fn lemma_closed_names_reached(ctx: ContextView, n: NodeView, budget: nat)
    requires
        ctx.closed(),
        ctx.names_node(n),
    ensures
        ctx.names_reached(n, budget),
    decreases budget,
{
    if budget > 0 {
        assert forall|j: int|
            0 <= j < n.nested_nodes.len() && ctx.nodes.contains_key(
                (#[trigger] n.nested_nodes[j]).id,
            ) implies ctx.names_reached(ctx.nodes[n.nested_nodes[j].id], (budget - 1) as nat) by {
            let id = n.nested_nodes[j].id;
            assert(ctx.nodes.contains_key(id));
            assert(ctx.nodes[id].id == id);
            assert(ctx.names_node(ctx.nodes[id]));
            lemma_closed_names_reached(ctx, ctx.nodes[id], (budget - 1) as nat);
        }
    }
}

/// The name of the module that the schema's own compiler generates for a file.
pub open spec fn capnp_mod_name(filename: Seq<char>) -> NameView {
    normalized(replace_char(lowercase(filename), '.', "_"@))
}

/// The path of the schema's own type for a declaration: the file's module, the
/// names of the enclosing modules without the first, and the type's name.
pub open spec fn capnp_type_name(filename: Seq<char>, modules: PathView, local_name: NameView) -> PathView {
    (seq![capnp_mod_name(filename)] + (if modules.len() > 0 {
        modules.skip(1)
    } else {
        Seq::empty()
    })).push(local_name)
}

/// The path of the generated type for a declaration.
pub open spec fn qualified_type_name(modules: PathView, local_name: NameView) -> PathView {
    modules.push(local_name)
}

impl TranslationContext {
    /// A context that knows no node yet.
    pub fn new(existing_modules_in_out_dir: Vec<String>) -> (r: TranslationContext)
        ensures
            r@ == (ContextView {
                existing_modules_in_out_dir: existing_modules_in_out_dir@.map_values(
                    |s: String| s@,
                ),
                filename: Seq::empty(),
                modules: Seq::empty(),
                names: Map::empty(),
                children: no_entries(),
                nodes: Map::empty(),
            }),
    {
        let r = TranslationContext {
            existing_modules_in_out_dir,
            filename: String::new(),
            modules: Vec::new(),
            names: HashMap::new(),
            children: multimap_empty(),
            nodes: HashMap::new(),
        };
        proof {
            assert(r@.modules =~= Seq::empty());
            assert(r@.names =~= Map::empty());
            assert(r@.nodes =~= Map::empty());
        }
        r
    }

    /// A copy of the context for another file.
    pub fn clone_with_filename(&self, filename: String) -> (r: TranslationContext)
        ensures
            r@ == self@.in_file(filename@),
    {
        let mut c = self.clone();
        c.filename = filename;
        c
    }

    /// A copy of the context one module further in.
    pub fn clone_with_submodule(&self, submodule_name: &Name) -> (r: TranslationContext)
        ensures
            r@ == self@.in_module(submodule_name@),
    {
        let mut c = self.clone();
        c.modules.push(submodule_name.clone());
        proof {
            assert(path_view(c.modules@) =~= path_view(self.modules@).push(
                submodule_name@,
            ));
        }
        c
    }

    /// The name of the module that the schema's own compiler generates for a
    /// file.
    pub fn generate_capnp_mod_from_filename(filename: &String) -> (r: Name)
        ensures
            r@ == capnp_mod_name(filename@),
    {
        let lower = filename.as_str().to_lowercase();
        let clean = replace_char_in(lower.as_str(), '.', "_");
        Name::from(&clean)
    }

    /// The path of the schema's own type for a declaration named `local_name`.
    pub fn generate_capnp_type_name(&self, local_name: &Name) -> (r: FullyQualifiedName)
        ensures
            r@ == capnp_type_name(self@.filename, self@.modules, local_name@),
    {
        capnp_path_at(&self.filename, &self.modules, local_name)
    }

    /// The path of the generated type for a declaration named `local_name`.
    pub fn generate_fully_qualified_type_name(&self, local_name: &Name) -> (r: FullyQualifiedName)
        ensures
            r@ == qualified_type_name(self@.modules, local_name@),
    {
        qualified_path_at(&self.modules, local_name)
    }

    pub fn existing_modules_in_out_dir(&self) -> (r: &Vec<String>)
        ensures
            *r == self.existing_modules_in_out_dir,
    {
        &self.existing_modules_in_out_dir
    }

    pub fn filename(&self) -> (r: &String)
        ensures
            *r == self.filename,
    {
        &self.filename
    }

    pub fn set_filename(&mut self, filename: String)
        ensures
            final(self)@ == old(self)@.in_file(filename@),
    {
        self.filename = filename;
    }

    /// The names of the modules that the translation is in, outermost first.
    pub fn modules(&self) -> (r: &Vec<Name>)
        ensures
            *r == self.modules,
    {
        &self.modules
    }

    pub fn names(&self) -> (r: &HashMap<Id, Name>)
        ensures
            *r == self.names,
    {
        &self.names
    }

    pub fn children(&self) -> (r: &MultiMap<Id, Id>)
        ensures
            *r == self.children,
    {
        &self.children
    }

    pub fn nodes(&self) -> (r: &HashMap<Id, Node>)
        ensures
            *r == self.nodes,
    {
        &self.nodes
    }
}

pub(crate) fn capnp_path_at(filename: &String, modules: &Vec<Name>, local_name: &Name) -> (r:
    FullyQualifiedName)
    ensures
        r@ == capnp_type_name(filename@, path_view(modules@), local_name@),
{
    let mut names: Vec<Name> = Vec::new();
    names.push(TranslationContext::generate_capnp_mod_from_filename(filename));
    let mut i: usize = 1;
    while i < modules.len()
        invariant
            1 <= i,
            modules.len() > 0 ==> i <= modules.len(),
            modules.len() == 0 ==> i == 1,
            names.len() == i,
            names[0]@ == capnp_mod_name(filename@),
            forall|j: int| 1 <= j < i ==> names[j]@ == modules[j]@,
        decreases modules.len() - i,
    {
        names.push(modules[i].clone());
        i += 1;
    }
    let ghost copied = names@;
    names.push(local_name.clone());
    proof {
        let tail = if modules@.len() > 0 {
            path_view(modules@).skip(1)
        } else {
            Seq::empty()
        };
        let expected = (seq![capnp_mod_name(filename@)] + tail).push(local_name@);
        assert(names@ == copied.push(names@.last()));
        assert(tail.len() == i - 1);
        assert forall|j: int| 0 <= j < expected.len() implies path_view(names@)[j]
            == expected[j] by {
            if 1 <= j < i {
                assert(names@[j] == copied[j]);
                assert(tail[j - 1] == path_view(modules@)[j]);
            }
        }
        assert(path_view(names@) =~= expected);
    }
    FullyQualifiedName { names }
}

pub(crate) fn qualified_path_at(modules: &Vec<Name>, local_name: &Name) -> (r: FullyQualifiedName)
    ensures
        r@ == qualified_type_name(path_view(modules@), local_name@),
{
    let mut names = modules.clone();
    proof {
        assert(path_view(names@) =~= path_view(modules@));
    }
    names.push(local_name.clone());
    proof {
        assert(path_view(names@) =~= path_view(modules@).push(local_name@));
    }
    FullyQualifiedName { names }
}

//
// Building the index
//

/// Whether the display name of a file node can be cut one byte before its
/// prefix length.
pub open spec fn file_name_cuts(n: NodeView) -> bool {
    n.display_name_prefix_length >= 1 && cuts_at(n.display_name, n.display_name_prefix_length - 1)
}

/// The name of a file node: what its display name holds up to one byte before
/// its prefix length, which is where the name of the file's own directory ends.
pub open spec fn file_node_name(n: NodeView) -> Result<NameView, Error> {
    if file_name_cuts(n) {
        Ok(normalized(byte_prefix(n.display_name, n.display_name_prefix_length - 1)))
    } else {
        Err(Error::MalformedDisplayName(n.id))
    }
}

/// The names with those of the nested declarations added, later ones over
/// earlier ones.
pub open spec fn with_nested_names(
    names: Map<Id, NameView>,
    nested: Seq<parser::ast::node::NestedNodeView>,
) -> Map<Id, NameView>
    decreases nested.len(),
{
    if nested.len() == 0 {
        names
    } else {
        with_nested_names(names, nested.drop_last()).insert(
            nested.last().id,
            normalized(nested.last().name),
        )
    }
}

/// The index with one more node: a file node gets its name, the declarations
/// nested in the node get theirs, the node is listed under its scope and is
/// indexed by its id.
pub open spec fn with_node(ctx: ContextView, n: NodeView) -> Result<ContextView, Error> {
    if n.which is File && file_node_name(n) is Err {
        Err(file_node_name(n)->Err_0)
    } else {
        let names = if n.which is File {
            ctx.names.insert(n.id, file_node_name(n)->Ok_0)
        } else {
            ctx.names
        };
        Ok(
            ContextView {
                names: with_nested_names(names, n.nested_nodes),
                children: with_entry(ctx.children, n.scope_id, n.id),
                nodes: ctx.nodes.insert(n.id, n),
                ..ctx
            },
        )
    }
}

/// The index with the nodes added in order, or the first failure.
pub open spec fn with_nodes(ctx: ContextView, nodes: Seq<NodeView>) -> Result<ContextView, Error>
    decreases nodes.len(),
{
    if nodes.len() == 0 {
        Ok(ctx)
    } else {
        match with_nodes(ctx, nodes.drop_last()) {
            Err(e) => Err(e),
            Ok(c) => with_node(c, nodes.last()),
        }
    }
}

/// Adding nested names keeps the names that were there and names every nested
/// declaration.
pub proof fn lemma_with_nested_names(
    names: Map<Id, NameView>,
    nested: Seq<parser::ast::node::NestedNodeView>,
)
    ensures
        forall|k: Id| names.contains_key(k) ==> #[trigger] with_nested_names(
            names,
            nested,
        ).contains_key(k),
        forall|j: int|
            0 <= j < nested.len() ==> with_nested_names(names, nested).contains_key(
                (#[trigger] nested[j]).id,
            ),
    decreases nested.len(),
{
    if nested.len() > 0 {
        lemma_with_nested_names(names, nested.drop_last());
        assert forall|k: Id| names.contains_key(k) implies #[trigger] with_nested_names(
            names,
            nested,
        ).contains_key(k) by {
            assert(with_nested_names(names, nested.drop_last()).contains_key(k));
        }
        assert forall|j: int| 0 <= j < nested.len() implies with_nested_names(
            names,
            nested,
        ).contains_key((#[trigger] nested[j]).id) by {
            if j < nested.len() - 1 {
                assert(nested.drop_last()[j] == nested[j]);
            }
        }
    }
}

/// One more node keeps the index closed, keeps its names, and names what is
/// nested in the node, and the node itself if it is a file.
pub proof fn lemma_with_node(ctx: ContextView, n: NodeView)
    requires
        ctx.closed(),
        with_node(ctx, n) is Ok,
    ensures
        with_node(ctx, n)->Ok_0.closed(),
        forall|k: Id| ctx.names.contains_key(k) ==> #[trigger] with_node(
            ctx,
            n,
        )->Ok_0.names.contains_key(k),
        forall|j: int|
            0 <= j < n.nested_nodes.len() ==> with_node(ctx, n)->Ok_0.names.contains_key(
                (#[trigger] n.nested_nodes[j]).id,
            ),
        n.which is File ==> with_node(ctx, n)->Ok_0.names.contains_key(n.id),
        with_node(ctx, n)->Ok_0.existing_modules_in_out_dir == ctx.existing_modules_in_out_dir,
        with_node(ctx, n)->Ok_0.filename == ctx.filename,
        with_node(ctx, n)->Ok_0.modules == ctx.modules,
{
    let names = if n.which is File {
        ctx.names.insert(n.id, file_node_name(n)->Ok_0)
    } else {
        ctx.names
    };
    lemma_with_nested_names(names, n.nested_nodes);
    let c = with_node(ctx, n)->Ok_0;
    assert forall|id: Id| #[trigger] c.nodes.contains_key(id) implies {
        &&& c.nodes[id].id == id
        &&& forall|j: int|
            0 <= j < c.nodes[id].nested_nodes.len() ==> c.names.contains_key(
                (#[trigger] c.nodes[id].nested_nodes[j]).id,
            )
    } by {
        if id != n.id {
            assert(ctx.nodes.contains_key(id));
            assert forall|j: int| 0 <= j < c.nodes[id].nested_nodes.len() implies c.names.contains_key(
                (#[trigger] c.nodes[id].nested_nodes[j]).id,
            ) by {
                assert(ctx.names.contains_key(ctx.nodes[id].nested_nodes[j].id));
                assert(names.contains_key(ctx.nodes[id].nested_nodes[j].id));
            }
        }
    }
}

/// The index built from a closed index is closed, and names every file node
/// and what is nested in it.
pub proof fn lemma_with_nodes(ctx: ContextView, nodes: Seq<NodeView>)
    requires
        ctx.closed(),
        with_nodes(ctx, nodes) is Ok,
    ensures
        with_nodes(ctx, nodes)->Ok_0.closed(),
        forall|k: Id| ctx.names.contains_key(k) ==> #[trigger] with_nodes(
            ctx,
            nodes,
        )->Ok_0.names.contains_key(k),
        forall|i: int|
            0 <= i < nodes.len() && (#[trigger] nodes[i]).which is File ==> with_nodes(
                ctx,
                nodes,
            )->Ok_0.names_node(nodes[i]),
        with_nodes(ctx, nodes)->Ok_0.existing_modules_in_out_dir == ctx.existing_modules_in_out_dir,
        with_nodes(ctx, nodes)->Ok_0.filename == ctx.filename,
        with_nodes(ctx, nodes)->Ok_0.modules == ctx.modules,
    decreases nodes.len(),
{
    if nodes.len() > 0 {
        let before = with_nodes(ctx, nodes.drop_last())->Ok_0;
        lemma_with_nodes(ctx, nodes.drop_last());
        lemma_with_node(before, nodes.last());
        let c = with_nodes(ctx, nodes)->Ok_0;
        assert forall|i: int| 0 <= i < nodes.len() && (#[trigger] nodes[i]).which is File implies c.names_node(
            nodes[i],
        ) by {
            if i < nodes.len() - 1 {
                assert(nodes.drop_last()[i] == nodes[i]);
                assert(before.names_node(nodes[i]));
                assert forall|j: int| 0 <= j < nodes[i].nested_nodes.len() implies c.names.contains_key(
                    (#[trigger] nodes[i].nested_nodes[j]).id,
                ) by {
                    assert(before.names.contains_key(nodes[i].nested_nodes[j].id));
                }
            }
        }
    }
}

/// Whether the display name of every file node can be cut where its name ends.
pub open spec fn files_cut(nodes: Seq<NodeView>) -> bool {
    forall|i: int|
        0 <= i < nodes.len() && (#[trigger] nodes[i]).which is File ==> file_name_cuts(nodes[i])
}

/// The nodes of an index after the nodes of a description were added: each
/// under its id, later ones over earlier ones.
pub open spec fn indexed_nodes(before: Map<Id, NodeView>, nodes: Seq<NodeView>) -> Map<
    Id,
    NodeView,
>
    decreases nodes.len(),
{
    if nodes.len() == 0 {
        before
    } else {
        indexed_nodes(before, nodes.drop_last()).insert(nodes.last().id, nodes.last())
    }
}

/// The ids with those of the nested declarations added.
pub open spec fn with_nested_ids(
    named: Set<Id>,
    nested: Seq<parser::ast::node::NestedNodeView>,
) -> Set<Id>
    decreases nested.len(),
{
    if nested.len() == 0 {
        named
    } else {
        with_nested_ids(named, nested.drop_last()).insert(nested.last().id)
    }
}

/// The ids that an index names after the nodes of a description were added:
/// those it named before, the id of every file node, and the id of every
/// nested declaration.
pub open spec fn indexed_names(before: Set<Id>, nodes: Seq<NodeView>) -> Set<Id>
    decreases nodes.len(),
{
    if nodes.len() == 0 {
        before
    } else {
        let front = indexed_names(before, nodes.drop_last());
        with_nested_ids(
            if nodes.last().which is File {
                front.insert(nodes.last().id)
            } else {
                front
            },
            nodes.last().nested_nodes,
        )
    }
}

/// The ids named after nested names were added are those named before and the
/// ids of the nested declarations.
pub proof fn lemma_with_nested_ids(
    names: Map<Id, NameView>,
    nested: Seq<parser::ast::node::NestedNodeView>,
)
    ensures
        with_nested_names(names, nested).dom() == with_nested_ids(names.dom(), nested),
    decreases nested.len(),
{
    if nested.len() > 0 {
        lemma_with_nested_ids(names, nested.drop_last());
    }
    assert(with_nested_names(names, nested).dom() =~= with_nested_ids(names.dom(), nested));
}

/// The index of a description can be built exactly if the display name of
/// every file node can be cut. Its nodes are then those of the index before
/// and of the description, and it names the ids of [`indexed_names`].
pub proof fn law_index_builds(ctx: ContextView, nodes: Seq<NodeView>)
    ensures
        with_nodes(ctx, nodes) is Ok <==> files_cut(nodes),
        with_nodes(ctx, nodes) is Ok ==> with_nodes(ctx, nodes)->Ok_0.nodes == indexed_nodes(
            ctx.nodes,
            nodes,
        ),
        with_nodes(ctx, nodes) is Ok ==> with_nodes(ctx, nodes)->Ok_0.names.dom() == indexed_names(
            ctx.names.dom(),
            nodes,
        ),
    decreases nodes.len(),
{
    if nodes.len() > 0 {
        let front = nodes.drop_last();
        law_index_builds(ctx, front);
        if with_nodes(ctx, nodes) is Ok {
            let before = with_nodes(ctx, front)->Ok_0;
            let n = nodes.last();
            let names = if n.which is File {
                before.names.insert(n.id, file_node_name(n)->Ok_0)
            } else {
                before.names
            };
            lemma_with_nested_ids(names, n.nested_nodes);
            assert(names.dom() =~= if n.which is File {
                before.names.dom().insert(n.id)
            } else {
                before.names.dom()
            });
        }
        if files_cut(nodes) {
            assert forall|i: int|
                0 <= i < front.len() && (#[trigger] front[i]).which is File implies file_name_cuts(
                front[i],
            ) by {
                assert(nodes[i] == front[i]);
            }
            assert(nodes[nodes.len() - 1] == nodes.last());
        }
        if with_nodes(ctx, nodes) is Ok {
            assert forall|i: int|
                0 <= i < nodes.len() && (#[trigger] nodes[i]).which is File implies file_name_cuts(
                nodes[i],
            ) by {
                if i < nodes.len() - 1 {
                    assert(front[i] == nodes[i]);
                }
            }
        }
    }
}

/// Whether the index that is built for a description, on top of an index with
/// the nodes `before` that names the ids `named`, names what the translation
/// of the description looks up: every file node and every node reached from
/// one. Nothing is asked where the index cannot be built.
pub open spec fn files_named(named: Set<Id>, before: Map<Id, NodeView>, nodes: Seq<NodeView>) -> bool {
    files_cut(nodes) ==> forall|i: int|
        0 <= i < nodes.len() && (#[trigger] nodes[i]).which is File ==> reached_named(
            indexed_names(named, nodes),
            indexed_nodes(before, nodes),
            nodes[i],
            indexed_nodes(before, nodes).dom().len(),
        )
}

/// The index built on a closed index, such as the empty one, names what the
/// translation looks up.
pub proof fn lemma_closed_index_names_files(ctx: ContextView, nodes: Seq<NodeView>)
    requires
        ctx.closed(),
    ensures
        files_named(ctx.names.dom(), ctx.nodes, nodes),
{
    law_index_builds(ctx, nodes);
    if with_nodes(ctx, nodes) is Ok {
        let index = with_nodes(ctx, nodes)->Ok_0;
        lemma_with_nodes(ctx, nodes);
        assert forall|i: int|
            0 <= i < nodes.len() && (#[trigger] nodes[i]).which is File implies index.names_reached(
            nodes[i],
            index.nodes.dom().len(),
        ) by {
            lemma_closed_names_reached(index, nodes[i], index.nodes.dom().len());
        }
    }
}

/// A failure on the first `k` nodes is the failure on all of them.
pub proof fn lemma_with_nodes_failure(ctx: ContextView, nodes: Seq<NodeView>, k: int)
    requires
        0 <= k <= nodes.len(),
        with_nodes(ctx, nodes.take(k)) is Err,
    ensures
        with_nodes(ctx, nodes) == with_nodes(ctx, nodes.take(k)),
    decreases nodes.len(),
{
    if k == nodes.len() {
        assert(nodes.take(k) =~= nodes);
    } else {
        assert(nodes.drop_last().take(k) =~= nodes.take(k));
        lemma_with_nodes_failure(ctx, nodes.drop_last(), k);
    }
}

pub(crate) fn is_file_node(n: &Node) -> (b: bool)
    ensures
        b == (n@.which is File),
{
    match &n.which {
        parser::ast::node::Which::File => true,
        _ => false,
    }
}

/// The name of a file node.
pub fn name_file_node(n: &Node) -> (r: Result<Name, Error>)
    ensures
        outcome(r) == file_node_name(n@),
{
    if n.display_name_prefix_length == 0 {
        return Err(Error::MalformedDisplayName(n.id));
    }
    match take_bytes(n.display_name.as_str(), n.display_name_prefix_length - 1) {
        Some(head) => Ok(Name::from(&head)),
        None => Err(Error::MalformedDisplayName(n.id)),
    }
}

/// Adds one node to the index.
fn index_node(c: &mut TranslationContext, node: &Node) -> (r: Result<(), Error>)
    ensures
        match r {
            Ok(_) => with_node(old(c)@, node@) == Ok::<ContextView, Error>(final(c)@),
            Err(e) => with_node(old(c)@, node@) == Err::<ContextView, Error>(e),
        },
{
    let ghost before = c@;
    if is_file_node(node) {
        match name_file_node(node) {
            Ok(name) => {
                c.names.insert(node.id, name);
            },
            Err(e) => {
                return Err(e);
            },
        }
    }
    let ghost named = c@.names;
    proof {
        assert(named =~= if node@.which is File {
            before.names.insert(node.id, file_node_name(node@)->Ok_0)
        } else {
            before.names
        });
    }
    let mut j: usize = 0;
    while j < node.nested_nodes.len()
        invariant
            j <= node.nested_nodes.len(),
            c@.names == with_nested_names(named, node@.nested_nodes.take(j as int)),
            c@.existing_modules_in_out_dir == before.existing_modules_in_out_dir,
            c@.filename == before.filename,
            c@.modules == before.modules,
            c@.children == before.children,
            c@.nodes == before.nodes,
        decreases node.nested_nodes.len() - j,
    {
        let ghost names_before = c@.names;
        let name = Name::from(&node.nested_nodes[j].name);
        c.names.insert(node.nested_nodes[j].id, name);
        proof {
            assert(node@.nested_nodes.take(j + 1).drop_last() =~= node@.nested_nodes.take(
                j as int,
            ));
            assert(node@.nested_nodes.take(j + 1).last() == node.nested_nodes[j as int]@);
            assert(c@.names =~= names_before.insert(
                node.nested_nodes[j as int].id,
                normalized(node.nested_nodes[j as int].name@),
            ));
        }
        j += 1;
    }
    proof {
        assert(node@.nested_nodes.take(node.nested_nodes.len() as int) =~= node@.nested_nodes);
    }
    multimap_insert(&mut c.children, node.scope_id, node.id);
    let ghost nodes_before = c@.nodes;
    c.nodes.insert(node.id, node.clone());
    proof {
        assert(c@.nodes =~= nodes_before.insert(node.id, node@));
    }
    Ok(())
}

/// Builds the index of all nodes of a schema description on top of `ctx`. The
/// index built on a closed index is closed and names every file node, so that
/// every file node can be translated in it.
pub fn build_translation_context_from_cgr(
    ctx: &TranslationContext,
    cgr: &parser::ast::CodeGeneratorRequest,
) -> (r: Result<TranslationContext, Error>)
    ensures
        outcome(r) == with_nodes(ctx@, cgr@.nodes),
        ctx@.closed() && r is Ok ==> r->Ok_0@.closed(),
        ctx@.closed() && r is Ok ==> forall|i: int|
            0 <= i < cgr@.nodes.len() && (#[trigger] cgr@.nodes[i]).which is File
                ==> r->Ok_0@.names_node(cgr@.nodes[i]),
{
    let mut c = ctx.clone();
    let mut i: usize = 0;
    while i < cgr.nodes.len()
        invariant
            i <= cgr.nodes.len(),
            with_nodes(ctx@, cgr@.nodes.take(i as int)) == Ok::<ContextView, Error>(c@),
        decreases cgr.nodes.len() - i,
    {
        proof {
            assert(cgr@.nodes.take(i + 1).drop_last() =~= cgr@.nodes.take(i as int));
            assert(cgr@.nodes.take(i + 1).last() == cgr.nodes[i as int]@);
        }
        match index_node(&mut c, &cgr.nodes[i]) {
            Ok(_) => {},
            Err(e) => {
                proof {
                    lemma_with_nodes_failure(ctx@, cgr@.nodes, i + 1);
                }
                return Err(e);
            },
        }
        i += 1;
    }
    proof {
        assert(cgr@.nodes.take(cgr.nodes.len() as int) =~= cgr@.nodes);
        if ctx@.closed() {
            lemma_with_nodes(ctx@, cgr@.nodes);
        }
    }
    Ok(c)
}

/// Decides whether the index names the node and every node reached from it
/// through at most `budget` steps of nesting.
pub fn names_what_is_reached(ctx: &TranslationContext, n: &Node, budget: usize) -> (b: bool)
    ensures
        b == ctx@.names_reached(n@, budget as nat),
    decreases budget,
{
    proof {
        assert(ctx@.names.contains_key(n.id) == ctx.names@.contains_key(n.id));
    }
    if !ctx.names.contains_key(&n.id) {
        return false;
    }
    if budget == 0 {
        return true;
    }
    let mut j: usize = 0;
    while j < n.nested_nodes.len()
        invariant
            j <= n.nested_nodes.len(),
            budget > 0,
            ctx@.names.contains_key(n@.id),
            forall|k: int|
                0 <= k < j && ctx@.nodes.contains_key((#[trigger] n@.nested_nodes[k]).id)
                    ==> ctx@.names_reached(
                    ctx@.nodes[n@.nested_nodes[k].id],
                    (budget - 1) as nat,
                ),
        decreases n.nested_nodes.len() - j,
    {
        proof {
            assert(n@.nested_nodes[j as int] == n.nested_nodes[j as int]@);
        }
        match ctx.nodes.get(&n.nested_nodes[j].id) {
            Some(node) => {
                proof {
                    assert(ctx@.nodes.contains_key(n.nested_nodes[j as int].id));
                    assert(ctx@.nodes[n.nested_nodes[j as int].id] == node@);
                }
                if !names_what_is_reached(ctx, node, budget - 1) {
                    return false;
                }
            },
            None => {
                proof {
                    assert(!ctx.nodes@.contains_key(n.nested_nodes[j as int].id));
                }
            },
        }
        j += 1;
    }
    true
}

/// Decides whether the index that is built for a description on top of `ctx`
/// names what the translation of the description looks up.
pub fn names_files(ctx: &TranslationContext, cgr: &parser::ast::CodeGeneratorRequest) -> (b: bool)
    ensures
        b == files_named(ctx@.names.dom(), ctx@.nodes, cgr@.nodes),
{
    proof {
        law_index_builds(ctx@, cgr@.nodes);
    }
    let index = match build_translation_context_from_cgr(ctx, cgr) {
        Ok(index) => index,
        Err(_) => {
            return true;
        },
    };
    proof {
        assert(index@.nodes.dom() =~= index.nodes@.dom());
    }
    let mut i: usize = 0;
    while i < cgr.nodes.len()
        invariant
            i <= cgr.nodes.len(),
            files_cut(cgr@.nodes),
            index@.nodes == indexed_nodes(ctx@.nodes, cgr@.nodes),
            index@.names.dom() == indexed_names(ctx@.names.dom(), cgr@.nodes),
            index@.nodes.dom().len() == index.nodes.len(),
            forall|k: int|
                0 <= k < i && (#[trigger] cgr@.nodes[k]).which is File ==> index@.names_reached(
                    cgr@.nodes[k],
                    index@.nodes.dom().len(),
                ),
        decreases cgr.nodes.len() - i,
    {
        proof {
            assert(cgr@.nodes[i as int] == cgr.nodes[i as int]@);
        }
        if is_file_node(&cgr.nodes[i]) {
            if !names_what_is_reached(&index, &cgr.nodes[i], index.nodes.len()) {
                return false;
            }
        }
        i += 1;
    }
    true
}

//
// Looking things up
//

pub(crate) fn name_of<'a>(ctx: &'a TranslationContext, id: Id) -> (r: &'a Name)
    requires
        ctx@.names.contains_key(id),
    ensures
        r@ == ctx@.names[id],
{
    match ctx.names.get(&id) {
        Some(name) => name,
        None => {
            proof {
                assert(false);
            }
            unreached()
        },
    }
}

/// A nested declaration that translation passes over because no node has its
/// id, with the display name of the node it is nested in.
#[derive(Debug, PartialEq)]
pub struct Skipped {
    pub nested: parser::ast::node::NestedNode,
    pub parent: String,
}

/// The value of a [`Skipped`].
pub struct SkippedView {
    pub nested: parser::ast::node::NestedNodeView,
    pub parent: Seq<char>,
}

impl View for Skipped {
    type V = SkippedView;

    open spec fn view(&self) -> SkippedView {
        SkippedView { nested: self.nested@, parent: self.parent@ }
    }
}

/// The values of the skipped declarations in `v`.
pub open spec fn skipped_views(v: Seq<Skipped>) -> Seq<SkippedView> {
    v.map_values(|x: Skipped| x@)
}

/// What the translation of the declaration at place `j` among those nested in
/// `n` passes over: the declaration itself if no node has its id, else what
/// the translation of its node passes over.
pub open spec fn skipped_at(ctx: ContextView, n: NodeView, j: int, budget: nat) -> Seq<SkippedView>
    decreases budget, 0nat,
{
    let nested = n.nested_nodes[j];
    if !ctx.nodes.contains_key(nested.id) {
        seq![SkippedView { nested, parent: n.display_name }]
    } else if budget == 0 {
        Seq::empty()
    } else {
        skipped_within(ctx, ctx.nodes[nested.id], (budget - 1) as nat)
    }
}

/// What the translation of each declaration nested in `n` passes over.
pub open spec fn skipped_by_nested(ctx: ContextView, n: NodeView, budget: nat) -> Seq<
    Seq<SkippedView>,
>
    decreases budget, 1nat,
{
    Seq::new(
        n.nested_nodes.len(),
        |j: int|
            if 0 <= j < n.nested_nodes.len() {
                skipped_at(ctx, n, j, budget)
            } else {
                Seq::empty()
            },
    )
}

/// The nested declarations that the translation of `n` passes over, in the
/// order in which it comes to them, as deep as `budget` allows.
pub open spec fn skipped_within(ctx: ContextView, n: NodeView, budget: nat) -> Seq<SkippedView>
    decreases budget, 2nat,
{
    concatenated(skipped_by_nested(ctx, n, budget))
}

/// What the translation of each node of a description passes over: for a file
/// node what is reached from it, for any other node nothing.
pub open spec fn skipped_by_node(ctx: ContextView, nodes: Seq<NodeView>) -> Seq<Seq<SkippedView>> {
    Seq::new(
        nodes.len(),
        |i: int|
            if nodes[i].which is File {
                skipped_within(ctx, nodes[i], ctx.nodes.dom().len())
            } else {
                Seq::empty()
            },
    )
}

/// The nested declarations that the translation of a description passes over:
/// those reached from its file nodes, in the order of the translation.
pub open spec fn skipped(ctx: ContextView, nodes: Seq<NodeView>) -> Seq<SkippedView> {
    concatenated(skipped_by_node(ctx, nodes))
}

fn append_skipped(out: &mut Vec<Skipped>, more: &Vec<Skipped>)
    ensures
        skipped_views(final(out)@) == skipped_views(old(out)@) + skipped_views(more@),
{
    let ghost start = skipped_views(out@);
    let mut k: usize = 0;
    proof {
        assert(start + skipped_views(more@).take(0) =~= start);
    }
    while k < more.len()
        invariant
            k <= more.len(),
            start == skipped_views(old(out)@),
            skipped_views(out@) == start + skipped_views(more@).take(k as int),
        decreases more.len() - k,
    {
        let ghost before = skipped_views(out@);
        out.push(Skipped { nested: more[k].nested.clone(), parent: more[k].parent.clone() });
        proof {
            assert(skipped_views(out@) =~= before.push(more[k as int]@));
            assert(skipped_views(out@) =~= start + skipped_views(more@).take(k + 1));
        }
        k += 1;
    }
    proof {
        assert(skipped_views(more@).take(more.len() as int) =~= skipped_views(more@));
    }
}

fn skipped_below(ctx: &TranslationContext, n: &Node, budget: usize) -> (r: Vec<Skipped>)
    ensures
        skipped_views(r@) == skipped_within(ctx@, n@, budget as nat),
    decreases budget,
{
    let ghost parts = skipped_by_nested(ctx@, n@, budget as nat);
    let mut out: Vec<Skipped> = Vec::new();
    proof {
        assert(skipped_views(out@) =~= concatenated(parts.take(0)));
    }
    let mut i: usize = 0;
    while i < n.nested_nodes.len()
        invariant
            i <= n.nested_nodes.len(),
            parts == skipped_by_nested(ctx@, n@, budget as nat),
            skipped_views(out@) == concatenated(parts.take(i as int)),
        decreases n.nested_nodes.len() - i,
    {
        let nested = &n.nested_nodes[i];
        let ghost before = skipped_views(out@);
        proof {
            assert(n@.nested_nodes[i as int] == nested@);
            assert(parts.take(i + 1).drop_last() =~= parts.take(i as int));
            assert(parts[i as int] == skipped_at(ctx@, n@, i as int, budget as nat));
        }
        match ctx.nodes.get(&nested.id) {
            None => {
                proof {
                    assert(!ctx.nodes@.contains_key(nested.id));
                }
                out.push(Skipped { nested: nested.clone(), parent: n.display_name.clone() });
                proof {
                    assert(skipped_views(out@) =~= before + parts[i as int]);
                }
            },
            Some(node) => {
                proof {
                    assert(ctx@.nodes.contains_key(nested.id));
                    assert(ctx@.nodes[nested.id] == node@);
                }
                if budget > 0 {
                    let inner = skipped_below(ctx, node, budget - 1);
                    append_skipped(&mut out, &inner);
                } else {
                    proof {
                        assert(before + parts[i as int] =~= before);
                    }
                }
            },
        }
        i += 1;
    }
    proof {
        assert(parts.take(n.nested_nodes.len() as int) =~= parts);
    }
    out
}

/// Lists the nested declarations that the translation of a description passes
/// over because no node has their id. Translation does not fail on them; a
/// caller may want to report them. `ctx` is the index of the description.
pub fn skipped_declarations(ctx: &TranslationContext, cgr: &parser::ast::CodeGeneratorRequest) -> (r:
    Vec<Skipped>)
    ensures
        skipped_views(r@) == skipped(ctx@, cgr@.nodes),
{
    let ghost parts = skipped_by_node(ctx@, cgr@.nodes);
    let mut out: Vec<Skipped> = Vec::new();
    proof {
        assert(skipped_views(out@) =~= concatenated(parts.take(0)));
        assert(ctx@.nodes.dom() =~= ctx.nodes@.dom());
    }
    let mut i: usize = 0;
    while i < cgr.nodes.len()
        invariant
            i <= cgr.nodes.len(),
            parts == skipped_by_node(ctx@, cgr@.nodes),
            ctx@.nodes.dom().len() == ctx.nodes.len(),
            skipped_views(out@) == concatenated(parts.take(i as int)),
        decreases cgr.nodes.len() - i,
    {
        let ghost before = skipped_views(out@);
        proof {
            assert(cgr@.nodes[i as int] == cgr.nodes[i as int]@);
            assert(parts.take(i + 1).drop_last() =~= parts.take(i as int));
        }
        if is_file_node(&cgr.nodes[i]) {
            let inner = skipped_below(ctx, &cgr.nodes[i], ctx.nodes.len());
            append_skipped(&mut out, &inner);
        } else {
            proof {
                assert(before + parts[i as int] =~= before);
            }
        }
        i += 1;
    }
    proof {
        assert(parts.take(cgr.nodes.len() as int) =~= parts);
    }
    out
}

/// The test for an import with the id `id`: its name.
pub open spec fn import_named(id: Id) -> spec_fn(
    parser::ast::code_generator_request::requested_file::ImportView,
) -> Option<Seq<char>> {
    |i: parser::ast::code_generator_request::requested_file::ImportView|
        if i.id == id {
            Some(i.name)
        } else {
            None
        }
}

/// The test for a requested file that has the id `id` or imports it: the
/// file's name, or the import's.
pub open spec fn file_requested(id: Id) -> spec_fn(
    parser::ast::code_generator_request::RequestedFileView,
) -> Option<Seq<char>> {
    |f: parser::ast::code_generator_request::RequestedFileView|
        if f.id == id {
            Some(f.filename)
        } else {
            first_found(f.imports, import_named(id))
        }
}

/// The test for a file node with the id `id`: its display name.
pub open spec fn file_declared(id: Id) -> spec_fn(NodeView) -> Option<Seq<char>> {
    |n: NodeView|
        if n.which is File && n.id == id {
            Some(n.display_name)
        } else {
            None
        }
}

/// The name of the file with the id `id`: that of the first requested file
/// which has the id or imports it; failing that, the display name of the first
/// file node with the id.
pub open spec fn found_filename(cgr: parser::ast::CodeGeneratorRequestView, id: Id) -> Option<
    Seq<char>,
> {
    match first_found(cgr.requested_files, file_requested(id)) {
        Some(s) => Some(s),
        None => first_found(cgr.nodes, file_declared(id)),
    }
}

/// The name of the file of a file node, empty if none is found.
pub open spec fn file_of(cgr: parser::ast::CodeGeneratorRequestView, n: NodeView) -> Seq<char> {
    match found_filename(cgr, n.id) {
        Some(s) => s,
        None => Seq::empty(),
    }
}

fn find_import(
    imports: &Vec<parser::ast::code_generator_request::requested_file::Import>,
    id: Id,
) -> (r: Option<String>)
    ensures
        match r {
            Some(s) => first_found(
                imports@.map_values(
                    |i: parser::ast::code_generator_request::requested_file::Import| i@,
                ),
                import_named(id),
            ) == Some(s@),
            None => first_found(
                imports@.map_values(
                    |i: parser::ast::code_generator_request::requested_file::Import| i@,
                ),
                import_named(id),
            ) is None,
        },
{
    let ghost all = imports@.map_values(
        |i: parser::ast::code_generator_request::requested_file::Import| i@,
    );
    let mut i: usize = 0;
    while i < imports.len()
        invariant
            i <= imports.len(),
            all == imports@.map_values(
                |i: parser::ast::code_generator_request::requested_file::Import| i@,
            ),
            forall|j: int| 0 <= j < i ==> import_named(id)(all[j]) is None,
        decreases imports.len() - i,
    {
        if imports[i].id == id {
            proof {
                lemma_first_found_skip(all, import_named(id), i as int);
                assert(all.skip(i as int)[0] == all[i as int]);
            }
            return Some(imports[i].name.clone());
        }
        i += 1;
    }
    proof {
        lemma_first_found_skip(all, import_named(id), imports.len() as int);
    }
    None
}

/// Looks for the name of the file with the id `id`.
pub fn find_filename(cgr: &parser::ast::CodeGeneratorRequest, id: Id) -> (r: Option<String>)
    ensures
        match r {
            Some(s) => found_filename(cgr@, id) == Some(s@),
            None => found_filename(cgr@, id) is None,
        },
{
    let ghost files = cgr@.requested_files;
    let mut i: usize = 0;
    while i < cgr.requested_files.len()
        invariant
            i <= cgr.requested_files.len(),
            files == cgr@.requested_files,
            forall|j: int| 0 <= j < i ==> file_requested(id)(files[j]) is None,
        decreases cgr.requested_files.len() - i,
    {
        let file = &cgr.requested_files[i];
        proof {
            assert(files[i as int] == file@);
            lemma_first_found_skip(files, file_requested(id), i as int);
            assert(files.skip(i as int)[0] == files[i as int]);
        }
        if file.id == id {
            return Some(file.filename.clone());
        }
        match find_import(&file.imports, id) {
            Some(name) => {
                return Some(name);
            },
            None => {},
        }
        i += 1;
    }
    proof {
        lemma_first_found_skip(files, file_requested(id), cgr.requested_files.len() as int);
    }
    let ghost nodes = cgr@.nodes;
    let mut k: usize = 0;
    while k < cgr.nodes.len()
        invariant
            k <= cgr.nodes.len(),
            nodes == cgr@.nodes,
            first_found(cgr@.requested_files, file_requested(id)) is None,
            forall|j: int| 0 <= j < k ==> file_declared(id)(nodes[j]) is None,
        decreases cgr.nodes.len() - k,
    {
        let n = &cgr.nodes[k];
        proof {
            assert(nodes[k as int] == n@);
        }
        if is_file_node(n) && n.id == id {
            proof {
                lemma_first_found_skip(nodes, file_declared(id), k as int);
                assert(nodes.skip(k as int)[0] == nodes[k as int]);
            }
            return Some(n.display_name.clone());
        }
        k += 1;
    }
    proof {
        lemma_first_found_skip(nodes, file_declared(id), cgr.nodes.len() as int);
    }
    None
}

/// The name of the file with the id `id`, which the description must hold.
pub fn get_filename_from_cgr(cgr: &parser::ast::CodeGeneratorRequest, id: Id) -> (r: String)
    requires
        found_filename(cgr@, id) is Some,
    ensures
        Some(r@) == found_filename(cgr@, id),
{
    match find_filename(cgr, id) {
        Some(s) => s,
        None => {
            proof {
                assert(false);
            }
            unreached()
        },
    }
}

} // verus!

//! Pattern extraction: parsing a source text and locating every
//! function-like declaration together with its parameter list.
//!
//! The parsing and the structural query are the work of the tree-sitter
//! library with its Rust grammar.  What they yield is a function of the
//! source text, the pattern and the capture names alone, so the outcome
//! is given names here — `extraction_ready` for whether the text yields a
//! tree, `decls_of` for what is found in it — and the trusted items
//! promise exactly those names.  The rest of the crate reasons about the
//! plain values they denote.  Neither trusted step below panics on any
//! input: every failure becomes `None`, and the source text is consulted
//! only through bounds-checked lookups.

use vstd::prelude::*;
use tree_sitter::Node;
use tree_sitter::QueryCursor;
use tree_sitter::StreamingIterator;
use crate::decl::Declaration;

verus! {

#[verifier::external_type_specification]
#[verifier::external_body]
pub struct ExTree(tree_sitter::Tree);

#[verifier::external_type_specification]
#[verifier::external_body]
pub struct ExQuery(tree_sitter::Query);

/// Whether a source text yields a syntax tree and a compiled pattern with
/// both captures: a function of the four arguments alone (the grammar is
/// fixed), so the outcome may bear a name.
pub uninterp spec fn extraction_ready(
    text: Seq<char>,
    pattern: Seq<char>,
    name_capture: Seq<char>,
    params_capture: Seq<char>,
) -> bool;

/// The declarations that the pattern finds in a source text, each reduced
/// to its name, the row of its parameter list, and the kinds of the
/// parameter list's immediate children; a match missing either capture is
/// left out.  Again a function of the four arguments alone.
pub uninterp spec fn decls_of(
    text: Seq<char>,
    pattern: Seq<char>,
    name_capture: Seq<char>,
    params_capture: Seq<char>,
) -> Seq<Declaration>;

/// The declarations that walking one parsed tree with one compiled query
/// over one text yields — deterministic in the three, whatever they are —
/// named so that the two trusted steps below can be chained.
pub uninterp spec fn found_decls(
    tree: tree_sitter::Tree,
    query: tree_sitter::Query,
    text: Seq<char>,
    name_ix: u32,
    params_ix: u32,
) -> Seq<Declaration>;

/// Relies on tree_sitter::Parser::new, Parser::set_language and
/// Parser::parse with tree_sitter_rust::LANGUAGE, and on
/// tree_sitter::Query::new and Query::capture_index_for_name: parses the
/// text and compiles the pattern.  Every step is deterministic in the
/// arguments (the grammar is a fixed constant), so success is exactly
/// `extraction_ready`, and the declarations that the returned pair holds
/// are exactly `decls_of` the same arguments.  Each step reports failure
/// as a value, so no input panics.
#[verifier::external_body]
fn prepare(text: &str, pattern: &str, name_capture: &str, params_capture: &str) -> (r: Option<
    (tree_sitter::Tree, tree_sitter::Query, u32, u32),
>)
    ensures
        r is Some <==> extraction_ready(text@, pattern@, name_capture@, params_capture@),
        r matches Some(tup) ==> found_decls(tup.0, tup.1, text@, tup.2, tup.3) == decls_of(
            text@,
            pattern@,
            name_capture@,
            params_capture@,
        ),
{
    let language: tree_sitter::Language = tree_sitter_rust::LANGUAGE.into();
    let mut parser = tree_sitter::Parser::new();
    parser.set_language(&language).ok()?;
    let tree = parser.parse(text, None)?;
    let query = tree_sitter::Query::new(&language, pattern).ok()?;
    let name_ix = query.capture_index_for_name(name_capture)?;
    let params_ix = query.capture_index_for_name(params_capture)?;
    Some((tree, query, name_ix, params_ix))
}

/// Relies on tree_sitter::Tree::root_node, tree_sitter::QueryCursor::matches,
/// tree_sitter::QueryMatch::nodes_for_capture_index, and on
/// tree_sitter::Node::byte_range, Node::start_position, Node::children and
/// Node::kind: every match of the query over the whole tree, reduced to
/// plain values.  The
/// walk is deterministic in the arguments, so the result is exactly
/// `found_decls` of them.  The text is read only through bounds-checked
/// lookups (`str::get`, and a text provider that does the same), so a node
/// whose span falls outside the given text yields an empty name rather
/// than an abort: no input panics.
#[verifier::external_body]
fn collect_decls(
    tree: &tree_sitter::Tree,
    query: &tree_sitter::Query,
    text: &str,
    name_ix: u32,
    params_ix: u32,
) -> (r: Vec<Declaration>)
    ensures
        r@ == found_decls(*tree, *query, text@, name_ix, params_ix),
{
    let mut cursor = QueryCursor::new();
    let provider = |n: Node| text.as_bytes().get(n.byte_range()).into_iter();
    let mut ms = cursor.matches(query, tree.root_node(), provider);
    let mut out = Vec::new();
    while let Some(m) = ms.next() {
        let found = (m.nodes_for_capture_index(name_ix).next(), m.nodes_for_capture_index(params_ix).next());
        if let (Some(n), Some(p)) = found {
            out.push(Declaration {
                name: text.get(n.byte_range()).unwrap_or_default().to_owned(),
                row: p.start_position().row,
                param_kinds: p.children(&mut p.walk()).map(|c| c.kind().to_owned()).collect(),
            });
        }
    }
    out
}

/// The two recognized declaration shapes: a declaration with a body, and a
/// signature-only declaration.  Each captures its name token and its
/// parameter list; body content plays no part.
pub open spec fn declaration_pattern_spec() -> Seq<char> {
    "(function_item name: (identifier) @function_name parameters: (parameters) @params) (function_signature_item name: (identifier) @function_name parameters: (parameters) @params)"@
}

fn declaration_pattern() -> (r: &'static str)
    ensures
        r@ == declaration_pattern_spec(),
{
    "(function_item name: (identifier) @function_name parameters: (parameters) @params) (function_signature_item name: (identifier) @function_name parameters: (parameters) @params)"
}

/// The capture that names the declaration.
pub open spec fn name_capture_spec() -> Seq<char> {
    "function_name"@
}

fn name_capture() -> (r: &'static str)
    ensures
        r@ == name_capture_spec(),
{
    "function_name"
}

/// The capture that holds the parameter list.
pub open spec fn params_capture_spec() -> Seq<char> {
    "params"@
}

fn params_capture() -> (r: &'static str)
    ensures
        r@ == params_capture_spec(),
{
    "params"
}

/// Whether this library's fixed pattern can be run over a source text.
pub open spec fn rust_extraction_ready(text: Seq<char>) -> bool {
    extraction_ready(text, declaration_pattern_spec(), name_capture_spec(), params_capture_spec())
}

/// The declarations this library's fixed pattern finds in a source text.
pub open spec fn rust_decls_of(text: Seq<char>) -> Seq<Declaration> {
    decls_of(text, declaration_pattern_spec(), name_capture_spec(), params_capture_spec())
}

/// Every function-like declaration of one source text, each reduced to its
/// name, the 0-based row of its parameter list, and the kinds of the
/// parameter list's immediate children.  `None` exactly when the text
/// yields no tree: the caller treats that as fatal.
pub fn extract_declarations(text: &str) -> (r: Option<Vec<Declaration>>)
    ensures
        r is Some <==> rust_extraction_ready(text@),
        r matches Some(v) ==> v@ == rust_decls_of(text@),
{
    match prepare(text, declaration_pattern(), name_capture(), params_capture()) {
        None => None,
        Some((tree, query, name_ix, params_ix)) => {
            let decls = collect_decls(&tree, &query, text, name_ix, params_ix);
            Some(decls)
        },
    }
}

} // verus!

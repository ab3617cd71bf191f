//! The diagnostic scan over a Solidity syntax tree: risky constructs that
//! the target does not support, or supports differently, are reported.

use vstd::prelude::*;

use crate::text::{contains, has_prefix, occurs_in, starts_with, text_eq};

verus! {

/// A compiler version, as far as the version gates read it.
#[derive(Clone, Copy, Debug, PartialEq, Eq, Structural)]
pub struct Version {
    pub major: u64,
    pub minor: u64,
    pub patch: u64,
    /// The version carries a pre-release tag, which orders it before the
    /// release of the same numbers.
    pub pre_release: bool,
}

impl Version {
    /// The version orders strictly before the release `major.minor.patch`.
    pub open spec fn precedes_spec(self, major: u64, minor: u64, patch: u64) -> bool {
        ||| self.major < major
        ||| self.major == major && self.minor < minor
        ||| self.major == major && self.minor == minor && self.patch < patch
        ||| self.major == major && self.minor == minor && self.patch == patch && self.pre_release
    }

    /// The release `major.minor.patch`.
    pub fn new(major: u64, minor: u64, patch: u64) -> (r: Version)
        ensures
            r == (Version { major, minor, patch, pre_release: false }),
    {
        Version { major, minor, patch, pre_release: false }
    }

    /// Whether the version orders strictly before the release
    /// `major.minor.patch`.
    pub fn precedes(&self, major: u64, minor: u64, patch: u64) -> (r: bool)
        ensures
            r == self.precedes_spec(major, minor, patch),
    {
        if self.major != major {
            self.major < major
        } else if self.minor != minor {
            self.minor < minor
        } else if self.patch != patch {
            self.patch < patch
        } else {
            self.pre_release
        }
    }

    /// Before 0.5.0 a plain `address` has `send` and `transfer` too.
    pub fn plain_address_is_payable(&self) -> (r: bool)
        ensures
            r == self.precedes_spec(0, 5, 0),
    {
        self.precedes(0, 5, 0)
    }

    /// Before 0.6.0 an inline assembly block reaches the syntax tree as text;
    /// from 0.6.0 on, as a tree of Yul nodes.
    pub fn assembly_is_text(&self) -> (r: bool)
        ensures
            r == self.precedes_spec(0, 6, 0),
    {
        self.precedes(0, 6, 0)
    }
}

/// One node of the syntax tree, with the attributes that the scan reads.
#[derive(Debug)]
pub struct AstNode {
    /// The kind of node, such as `FunctionCall` or `MemberAccess`.
    pub node_type: String,
    /// The source location, `start:length:file`.
    pub src: Option<String>,
    /// The name of an identifier or of a contract.
    pub name: Option<String>,
    /// The member that a member access names.
    pub member_name: Option<String>,
    /// The static type of the expression that the node is.
    pub type_identifier: Option<String>,
    /// The text of an inline assembly block.
    pub operations: Option<String>,
    /// The name of the function that a Yul call calls.
    pub function_name: Option<String>,
    /// The operand expression of a call or member access.
    pub expression: Option<Box<AstNode>>,
    /// Every other child node, in order.
    pub children: Vec<AstNode>,
}

/// The error kinds that the user may suppress.
#[derive(Clone, Copy, Debug, PartialEq, Eq, Structural)]
pub enum ErrorType {
    SendTransfer,
}

/// The warning kinds that the user may suppress.
#[derive(Clone, Copy, Debug, PartialEq, Eq, Structural)]
pub enum WarningType {
    TxOrigin,
}

/// What a diagnostic reports.
#[derive(Clone, Copy, Debug, PartialEq, Eq, Structural)]
pub enum DiagnosticKind {
    /// An error: `send` or `transfer` on an address.
    SendTransfer,
    /// An error: a contract's runtime code is read.
    RuntimeCode,
    /// A warning: the transaction origin is read.
    TxOrigin,
}

/// One message of the scan, at the source location of its node.
#[derive(Debug)]
pub struct Diagnostic {
    pub kind: DiagnosticKind,
    pub src: String,
}

impl Diagnostic {
    /// Whether the diagnostic is an error rather than a warning.
    pub fn is_error(&self) -> (r: bool)
        ensures
            r == (self.kind != DiagnosticKind::TxOrigin),
    {
        match self.kind {
            DiagnosticKind::TxOrigin => false,
            _ => true,
        }
    }
}

/// The option holds exactly the text `lit`.
pub open spec fn is_text(o: Option<String>, lit: Seq<char>) -> bool {
    o is Some && o->Some_0@ == lit
}

/// The node is a call of `send` or `transfer` on an address that has them.
pub open spec fn is_send_or_transfer(version: Version, node: AstNode) -> bool {
    &&& node.node_type@ == "FunctionCall"@
    &&& node.expression is Some
    &&& node.expression->Some_0.node_type@ == "MemberAccess"@
    &&& is_text(node.expression->Some_0.member_name, "send"@) || is_text(
        node.expression->Some_0.member_name,
        "transfer"@,
    )
    &&& node.expression->Some_0.expression is Some
    &&& {
        let t = node.expression->Some_0.expression->Some_0.type_identifier;
        is_text(t, "t_address_payable"@) || version.precedes_spec(0, 5, 0) && is_text(
            t,
            "t_address"@,
        )
    }
}

/// The node reads the runtime code of a contract type.
pub open spec fn is_runtime_code(node: AstNode) -> bool {
    &&& node.node_type@ == "MemberAccess"@
    &&& is_text(node.member_name, "runtimeCode"@)
    &&& node.expression is Some
    &&& node.expression->Some_0.type_identifier is Some
    &&& has_prefix(node.expression->Some_0.type_identifier->Some_0@, "t_magic_meta_type"@)
}

/// The node reads `tx.origin`.
pub open spec fn is_tx_origin(node: AstNode) -> bool {
    &&& node.node_type@ == "MemberAccess"@
    &&& is_text(node.member_name, "origin"@)
    &&& node.expression is Some
    &&& node.expression->Some_0.node_type@ == "Identifier"@
    &&& is_text(node.expression->Some_0.name, "tx"@)
}

/// The node is inline assembly that uses the `origin` instruction, in the
/// form that the version gives it.
pub open spec fn is_assembly_origin(version: Version, node: AstNode) -> bool {
    ||| node.node_type@ == "InlineAssembly"@ && version.precedes_spec(0, 6, 0)
        && node.operations is Some && occurs_in(node.operations->Some_0@, "origin()"@)
    ||| node.node_type@ == "YulFunctionCall"@ && !version.precedes_spec(0, 6, 0) && is_text(
        node.function_name,
        "origin"@,
    )
}

/// The diagnostic of `kind` at `node` when `found` holds and the node has a
/// source location; none otherwise.
pub open spec fn finding(found: bool, kind: DiagnosticKind, node: AstNode) -> Option<Diagnostic> {
    if found && node.src is Some {
        Some(Diagnostic { kind, src: node.src->Some_0 })
    } else {
        None
    }
}

/// The sequence of zero or one diagnostics that `d` holds.
pub open spec fn seq_of(d: Option<Diagnostic>) -> Seq<Diagnostic> {
    match d {
        Some(x) => seq![x],
        None => Seq::empty(),
    }
}

/// The diagnostics of the node itself, without its descendants.
#[verifier::opaque]
pub open spec fn own_messages(
    node: AstNode,
    version: Version,
    suppress_send: bool,
    suppress_origin: bool,
) -> Seq<Diagnostic> {
    seq_of(finding(!suppress_send && is_send_or_transfer(version, node), DiagnosticKind::SendTransfer, node))
        + seq_of(finding(is_runtime_code(node), DiagnosticKind::RuntimeCode, node))
        + seq_of(finding(!suppress_origin && is_assembly_origin(version, node), DiagnosticKind::TxOrigin, node))
        + seq_of(finding(!suppress_origin && is_tx_origin(node), DiagnosticKind::TxOrigin, node))
}

/// The diagnostics of the node and of all its descendants, the node first,
/// then its expression, then its children in order.
pub open spec fn tree_messages(
    node: AstNode,
    version: Version,
    suppress_send: bool,
    suppress_origin: bool,
) -> Seq<Diagnostic>
    decreases node, node.children@.len() + 1,
{
    own_messages(node, version, suppress_send, suppress_origin) + match node.expression {
        Some(e) => tree_messages(*e, version, suppress_send, suppress_origin),
        None => Seq::empty(),
    } + children_messages(node, node.children@.len() as int, version, suppress_send, suppress_origin)
}

/// The diagnostics of the first `k` children of the node and their descendants.
pub open spec fn children_messages(
    node: AstNode,
    k: int,
    version: Version,
    suppress_send: bool,
    suppress_origin: bool,
) -> Seq<Diagnostic>
    decreases node, k,
{
    if k <= 0 || k > node.children@.len() {
        Seq::empty()
    } else {
        children_messages(node, k - 1, version, suppress_send, suppress_origin) + tree_messages(
            node.children@[k - 1],
            version,
            suppress_send,
            suppress_origin,
        )
    }
}

/// Whether the option holds exactly the text `lit`.
fn text_is(o: &Option<String>, lit: &str) -> (r: bool)
    ensures
        r == is_text(*o, lit@),
{
    match o {
        Some(s) => text_eq(s.as_str(), lit),
        None => false,
    }
}

/// The diagnostic of `kind` at `node`, if it has a source location.
fn report(kind: DiagnosticKind, node: &AstNode) -> (r: Option<Diagnostic>)
    ensures
        r == finding(true, kind, *node),
{
    match &node.src {
        Some(src) => Some(Diagnostic { kind, src: src.clone() }),
        None => None,
    }
}

/// Appends the diagnostic that `d` holds, if any.
fn push_found(messages: &mut Vec<Diagnostic>, d: Option<Diagnostic>)
    ensures
        final(messages)@ == old(messages)@ + seq_of(d),
{
    match d {
        Some(x) => messages.push(x),
        None => {
            assert(old(messages)@ + seq_of(d) =~= old(messages)@);
        },
    }
}

/// Whether `list` holds the error kind `e`.
fn has_error_type(list: &[ErrorType], e: ErrorType) -> (r: bool)
    ensures
        r == list@.contains(e),
{
    let mut i: usize = 0;
    while i < list.len()
        invariant
            i <= list@.len(),
            forall|j: int| 0 <= j < i ==> list@[j] != e,
        decreases list@.len() - i,
    {
        if list[i] == e {
            return true;
        }
        i = i + 1;
    }
    false
}

/// Whether `list` holds the warning kind `w`.
fn has_warning_type(list: &[WarningType], w: WarningType) -> (r: bool)
    ensures
        r == list@.contains(w),
{
    let mut i: usize = 0;
    while i < list.len()
        invariant
            i <= list@.len(),
            forall|j: int| 0 <= j < i ==> list@[j] != w,
        decreases list@.len() - i,
    {
        if list[i] == w {
            return true;
        }
        i = i + 1;
    }
    false
}

/// Appends the diagnostics of `node` itself to `messages`.
fn push_own_messages(
    node: &AstNode,
    version: &Version,
    suppress_send: bool,
    suppress_origin: bool,
    messages: &mut Vec<Diagnostic>,
)
    ensures
        final(messages)@ == old(messages)@ + own_messages(*node, *version, suppress_send, suppress_origin),
{
    let ghost start = messages@;
    if !suppress_send {
        push_found(messages, Source::check_send_and_transfer(version, node));
    }
    push_found(messages, Source::check_runtime_code(node));
    if !suppress_origin {
        push_found(messages, Source::check_assembly_origin(version, node));
        push_found(messages, Source::check_tx_origin(node));
    }
    proof {
        reveal(own_messages);
        assert(messages@ =~= start + own_messages(*node, *version, suppress_send, suppress_origin));
    }
}

/// Appends the diagnostics of `node` and its descendants to `messages`.
fn collect_messages(
    node: &AstNode,
    version: &Version,
    suppress_send: bool,
    suppress_origin: bool,
    messages: &mut Vec<Diagnostic>,
)
    ensures
        final(messages)@ == old(messages)@ + tree_messages(*node, *version, suppress_send, suppress_origin),
    decreases node,
{
    let ghost start = messages@;
    push_own_messages(node, version, suppress_send, suppress_origin, messages);
    match &node.expression {
        Some(e) => collect_messages(e, version, suppress_send, suppress_origin, messages),
        None => {},
    }
    let ghost after_expression = messages@;
    let mut i: usize = 0;
    while i < node.children.len()
        invariant
            i <= node.children@.len(),
            messages@ == after_expression + children_messages(*node, i as int, *version, suppress_send, suppress_origin),
        decreases node.children@.len() - i,
    {
        proof {
            assert(decreases_to!(node.children => node.children[i as int]));
        }
        collect_messages(&node.children[i], version, suppress_send, suppress_origin, messages);
        proof {
            assert(messages@ =~= after_expression + children_messages(*node, i + 1, *version, suppress_send, suppress_origin));
        }
        i = i + 1;
    }
    proof {
        assert(messages@ =~= start + tree_messages(*node, *version, suppress_send, suppress_origin));
    }
}

/// A source file of the compiler's output, with its syntax tree.
#[derive(Debug)]
pub struct Source {
    /// The source code identifier.
    pub id: usize,
    /// The syntax tree, if the compiler gave one.
    pub ast: Option<AstNode>,
}

/// Why the last contract of a source cannot be named.
#[derive(Clone, Copy, Debug, PartialEq, Eq, Structural)]
pub enum SourceError {
    /// The source has no syntax tree.
    EmptyAst,
    /// No top-level node defines a named contract.
    ContractNotFound,
}

/// The top-level node defines a contract with a name.
pub open spec fn is_named_contract(node: AstNode) -> bool {
    node.node_type@ == "ContractDefinition"@ && node.name is Some
}

impl Source {
    /// A source without a syntax tree.
    pub fn new(id: usize) -> (r: Source)
        ensures
            r.id == id,
            r.ast is None,
    {
        Source { id, ast: None }
    }

    /// The diagnostics of the whole tree under `ast`: a kind that the user
    /// suppressed is left out, and the runtime code error is never left out.
    pub fn get_messages(
        ast: &AstNode,
        solc_version: &Version,
        suppressed_errors: &[ErrorType],
        suppressed_warnings: &[WarningType],
    ) -> (r: Vec<Diagnostic>)
        ensures
            r@ == tree_messages(
                *ast,
                *solc_version,
                suppressed_errors@.contains(ErrorType::SendTransfer),
                suppressed_warnings@.contains(WarningType::TxOrigin),
            ),
    {
        let suppress_send = has_error_type(suppressed_errors, ErrorType::SendTransfer);
        let suppress_origin = has_warning_type(suppressed_warnings, WarningType::TxOrigin);
        let mut messages: Vec<Diagnostic> = Vec::new();
        collect_messages(ast, solc_version, suppress_send, suppress_origin, &mut messages);
        proof {
            assert(messages@ =~= tree_messages(*ast, *solc_version, suppress_send, suppress_origin));
        }
        messages
    }

    /// The name of the last top-level node that defines a named contract.
    pub fn last_contract_name(&self) -> (r: Result<String, SourceError>)
        ensures
            self.ast is None ==> r == Err::<String, SourceError>(SourceError::EmptyAst),
            self.ast is Some ==> {
                let nodes = self.ast->Some_0.children@;
                match r {
                    Ok(name) => exists|i: int|
                        0 <= i < nodes.len() && is_named_contract(nodes[i]) && nodes[i].name
                            == Some(name) && forall|j: int|
                            i < j < nodes.len() ==> !#[trigger] is_named_contract(nodes[j]),
                    Err(e) => e == SourceError::ContractNotFound && forall|j: int|
                        0 <= j < nodes.len() ==> !#[trigger] is_named_contract(nodes[j]),
                }
            },
    {
        let ast = match &self.ast {
            Some(a) => a,
            None => return Err(SourceError::EmptyAst),
        };
        let mut i: usize = ast.children.len();
        while i > 0
            invariant
                self.ast == Some(*ast),
                i <= ast.children@.len(),
                forall|j: int| i <= j < ast.children@.len() ==> !#[trigger] is_named_contract(ast.children@[j]),
            decreases i,
        {
            let node = &ast.children[i - 1];
            if text_eq(node.node_type.as_str(), "ContractDefinition") {
                match &node.name {
                    Some(name) => {
                        let r = name.clone();
                        proof {
                            let k = i - 1;
                            assert(is_named_contract(ast.children@[k]));
                            assert(ast.children@[k].name == Some(r));
                        }
                        return Ok(r);
                    },
                    None => {},
                }
            }
            i = i - 1;
        }
        Err(SourceError::ContractNotFound)
    }

    /// Reports `send` or `transfer` called on an address that has them.
    pub fn check_send_and_transfer(solc_version: &Version, ast: &AstNode) -> (r: Option<Diagnostic>)
        ensures
            r == finding(is_send_or_transfer(*solc_version, *ast), DiagnosticKind::SendTransfer, *ast),
    {
        if !text_eq(ast.node_type.as_str(), "FunctionCall") {
            return None;
        }
        let member = match &ast.expression {
            Some(e) => e,
            None => return None,
        };
        if !text_eq(member.node_type.as_str(), "MemberAccess") {
            return None;
        }
        if !text_is(&member.member_name, "send") && !text_is(&member.member_name, "transfer") {
            return None;
        }
        let receiver = match &member.expression {
            Some(e) => e,
            None => return None,
        };
        let affected = text_is(&receiver.type_identifier, "t_address_payable") || (
        solc_version.plain_address_is_payable() && text_is(&receiver.type_identifier, "t_address"));
        if !affected {
            return None;
        }
        report(DiagnosticKind::SendTransfer, ast)
    }

    /// Reports a read of a contract type's runtime code.
    pub fn check_runtime_code(ast: &AstNode) -> (r: Option<Diagnostic>)
        ensures
            r == finding(is_runtime_code(*ast), DiagnosticKind::RuntimeCode, *ast),
    {
        if !text_eq(ast.node_type.as_str(), "MemberAccess") {
            return None;
        }
        if !text_is(&ast.member_name, "runtimeCode") {
            return None;
        }
        let operand = match &ast.expression {
            Some(e) => e,
            None => return None,
        };
        let type_identifier = match &operand.type_identifier {
            Some(t) => t,
            None => return None,
        };
        if !starts_with(type_identifier.as_str(), "t_magic_meta_type") {
            return None;
        }
        report(DiagnosticKind::RuntimeCode, ast)
    }

    /// Reports a read of `tx.origin`.
    pub fn check_tx_origin(ast: &AstNode) -> (r: Option<Diagnostic>)
        ensures
            r == finding(is_tx_origin(*ast), DiagnosticKind::TxOrigin, *ast),
    {
        if !text_eq(ast.node_type.as_str(), "MemberAccess") {
            return None;
        }
        if !text_is(&ast.member_name, "origin") {
            return None;
        }
        let operand = match &ast.expression {
            Some(e) => e,
            None => return None,
        };
        if !text_eq(operand.node_type.as_str(), "Identifier") || !text_is(&operand.name, "tx") {
            return None;
        }
        report(DiagnosticKind::TxOrigin, ast)
    }

    /// Reports the `origin` instruction in inline assembly.
    pub fn check_assembly_origin(solc_version: &Version, ast: &AstNode) -> (r: Option<Diagnostic>)
        ensures
            r == finding(is_assembly_origin(*solc_version, *ast), DiagnosticKind::TxOrigin, *ast),
    {
        let as_text = solc_version.assembly_is_text();
        let found = if text_eq(ast.node_type.as_str(), "InlineAssembly") && as_text {
            match &ast.operations {
                Some(operations) => contains(operations.as_str(), "origin()"),
                None => false,
            }
        } else if text_eq(ast.node_type.as_str(), "YulFunctionCall") && !as_text {
            text_is(&ast.function_name, "origin")
        } else {
            false
        };
        if !found {
            return None;
        }
        report(DiagnosticKind::TxOrigin, ast)
    }
}

} // verus!

use evmla_lowering::bytecode::Bytecode;
use evmla_lowering::source::{
    AstNode, DiagnosticKind, ErrorType, Source, SourceError, Version, WarningType,
};

fn node(node_type: &str) -> AstNode {
    AstNode {
        node_type: node_type.to_owned(),
        src: Some("10:20:0".to_owned()),
        name: None,
        member_name: None,
        type_identifier: None,
        operations: None,
        function_name: None,
        expression: None,
        children: Vec::new(),
    }
}

/// `receiver.member(...)`, the receiver of static type `type_identifier`.
fn member_call(receiver_type: &str, member: &str) -> AstNode {
    let mut receiver = node("Identifier");
    receiver.name = Some("addr".to_owned());
    receiver.type_identifier = Some(receiver_type.to_owned());
    let mut access = node("MemberAccess");
    access.member_name = Some(member.to_owned());
    access.expression = Some(Box::new(receiver));
    let mut call = node("FunctionCall");
    call.expression = Some(Box::new(access));
    call
}

fn kinds(ast: &AstNode, version: &Version, errors: &[ErrorType], warnings: &[WarningType]) -> Vec<DiagnosticKind> {
    Source::get_messages(ast, version, errors, warnings)
        .iter()
        .map(|d| d.kind)
        .collect()
}

#[test]
fn transfer_on_payable_address_is_reported() {
    let call = member_call("t_address_payable", "transfer");
    for version in [Version::new(0, 4, 24), Version::new(0, 8, 0)] {
        let found = Source::check_send_and_transfer(&version, &call).expect("reported");
        assert_eq!(found.kind, DiagnosticKind::SendTransfer);
        assert_eq!(found.src, "10:20:0");
        assert!(found.is_error());
        assert_eq!(kinds(&call, &version, &[], &[]), vec![DiagnosticKind::SendTransfer]);
    }
}

#[test]
fn send_on_plain_address_is_reported_before_0_5_0_only() {
    let call = member_call("t_address", "send");
    assert!(Source::check_send_and_transfer(&Version::new(0, 4, 24), &call).is_some());
    assert!(Source::check_send_and_transfer(&Version::new(0, 5, 0), &call).is_none());
    let nightly = Version { major: 0, minor: 5, patch: 0, pre_release: true };
    assert!(Source::check_send_and_transfer(&nightly, &call).is_some());
}

#[test]
fn unrelated_call_is_not_reported() {
    let call = member_call("t_contract$_Foo_$12", "bar");
    assert!(Source::check_send_and_transfer(&Version::new(0, 8, 0), &call).is_none());
    assert!(kinds(&call, &Version::new(0, 8, 0), &[], &[]).is_empty());
}

#[test]
fn suppressed_send_transfer_is_not_reported() {
    let call = member_call("t_address_payable", "transfer");
    assert!(kinds(&call, &Version::new(0, 8, 0), &[ErrorType::SendTransfer], &[]).is_empty());
}

#[test]
fn assembly_text_origin_before_0_6_0() {
    let mut assembly = node("InlineAssembly");
    assembly.operations = Some("{ let a := origin() }".to_owned());
    let found = Source::check_assembly_origin(&Version::new(0, 5, 9), &assembly).expect("reported");
    assert_eq!(found.kind, DiagnosticKind::TxOrigin);
    assert!(!found.is_error());
    assert!(Source::check_assembly_origin(&Version::new(0, 6, 0), &assembly).is_none());
}

#[test]
fn yul_origin_call_from_0_6_0() {
    let mut call = node("YulFunctionCall");
    call.function_name = Some("origin".to_owned());
    let found = Source::check_assembly_origin(&Version::new(0, 8, 0), &call).expect("reported");
    assert_eq!(found.kind, DiagnosticKind::TxOrigin);
    assert!(Source::check_assembly_origin(&Version::new(0, 5, 9), &call).is_none());
    assert!(kinds(&call, &Version::new(0, 8, 0), &[], &[WarningType::TxOrigin]).is_empty());
}

#[test]
fn tx_origin_is_reported() {
    let mut tx = node("Identifier");
    tx.name = Some("tx".to_owned());
    let mut access = node("MemberAccess");
    access.member_name = Some("origin".to_owned());
    access.expression = Some(Box::new(tx));
    let found = Source::check_tx_origin(&access).expect("reported");
    assert_eq!(found.kind, DiagnosticKind::TxOrigin);
}

#[test]
fn runtime_code_is_reported() {
    let mut meta = node("FunctionCall");
    meta.type_identifier = Some("t_magic_meta_type_t_contract$_C_$3".to_owned());
    let mut access = node("MemberAccess");
    access.member_name = Some("runtimeCode".to_owned());
    access.expression = Some(Box::new(meta));
    let found = Source::check_runtime_code(&access).expect("reported");
    assert_eq!(found.kind, DiagnosticKind::RuntimeCode);
    assert!(found.is_error());
}

#[test]
fn messages_of_nested_nodes_are_collected_in_order() {
    let mut assembly = node("InlineAssembly");
    assembly.operations = Some("origin()".to_owned());
    let mut block = node("Block");
    block.children = vec![member_call("t_address_payable", "send"), node("Return"), assembly];
    let mut unit = node("SourceUnit");
    unit.children = vec![block];
    assert_eq!(
        kinds(&unit, &Version::new(0, 5, 1), &[], &[]),
        vec![DiagnosticKind::SendTransfer, DiagnosticKind::TxOrigin]
    );
}

#[test]
fn node_without_location_is_not_reported() {
    let mut call = member_call("t_address_payable", "send");
    call.src = None;
    assert!(Source::check_send_and_transfer(&Version::new(0, 8, 0), &call).is_none());
}

#[test]
fn last_contract_name_takes_the_last_named_contract() {
    let mut source = Source::new(3);
    assert_eq!(source.id, 3);
    assert_eq!(source.last_contract_name(), Err(SourceError::EmptyAst));
    let mut first = node("ContractDefinition");
    first.name = Some("A".to_owned());
    let mut second = node("ContractDefinition");
    second.name = Some("B".to_owned());
    let mut unit = node("SourceUnit");
    unit.children = vec![first, second, node("PragmaDirective")];
    source.ast = Some(unit);
    assert_eq!(source.last_contract_name(), Ok("B".to_owned()));
    source.ast = Some(node("SourceUnit"));
    assert_eq!(source.last_contract_name(), Err(SourceError::ContractNotFound));
}

#[test]
fn bytecode_holds_its_object() {
    assert_eq!(Bytecode::new("6080".to_owned()).object, "6080");
}

use wasm_snip::{
    first_invalid, select, snip, snip_with_options, Body, Function, FunctionKind, HeapType,
    Module, Options, RefType, Signature, SnipError, TargetSet, ValType,
};

fn function(name: &str, params: Vec<ValType>, results: Vec<ValType>, body: Body) -> Function {
    Function {
        name: Some(name.to_string()),
        signature: Signature { params, results },
        kind: FunctionKind::Local(body),
    }
}

/// `a` calls `b` (function index 1); `b` and `c` return constants.
fn three_functions() -> Module {
    Module {
        funcs: vec![
            function("a", vec![], vec![ValType::I32], Body { locals: vec![], code: vec![0x10, 0x01] }),
            function(
                "b",
                vec![],
                vec![ValType::I32],
                Body { locals: vec![(2, ValType::I32), (1, ValType::F64)], code: vec![0x41, 0x2a] },
            ),
            function("c", vec![], vec![ValType::I32], Body { locals: vec![], code: vec![0x41, 0x07] }),
        ],
    }
}

fn with_import() -> Module {
    let mut module = three_functions();
    module.funcs.insert(
        0,
        Function {
            name: Some("b".to_string()),
            signature: Signature { params: vec![ValType::I64], results: vec![] },
            kind: FunctionKind::Import,
        },
    );
    module
}

fn unreachable_body() -> FunctionKind {
    FunctionKind::Local(Body { locals: vec![], code: vec![0x00] })
}

fn targets_of(indices: &[usize]) -> TargetSet {
    let mut targets = TargetSet::new();
    for i in indices {
        targets.insert(*i);
    }
    targets
}

fn named(names: &[&str]) -> Options {
    let mut options = Options::default();
    options.functions = names.iter().map(|n| n.to_string()).collect();
    options
}

#[test]
fn snip_b_by_exact_name() {
    let before = three_functions();
    let mut module = three_functions();
    snip_with_options(&mut module, &named(&["b"])).unwrap();
    assert_eq!(module.funcs.len(), 3);
    assert_eq!(module.funcs[1].kind, unreachable_body());
    assert_eq!(module.funcs[1].name, before.funcs[1].name);
    assert_eq!(module.funcs[1].signature, before.funcs[1].signature);
    assert_eq!(module.funcs[0], before.funcs[0]);
    assert_eq!(module.funcs[2], before.funcs[2]);
    match &module.funcs[0].kind {
        FunctionKind::Local(body) => assert_eq!(body.code, vec![0x10, 0x01]),
        FunctionKind::Import => panic!("a is a local function"),
    }
}

#[test]
fn snipped_body_is_one_unreachable_without_locals() {
    let body = Body::unreachable();
    assert_eq!(body.locals, vec![]);
    assert_eq!(body.code, vec![0x00]);
    assert!(body.is_unreachable());
    assert!(!Body { locals: vec![(1, ValType::I32)], code: vec![0x00] }.is_unreachable());
    assert!(!Body { locals: vec![], code: vec![0x00, 0x00] }.is_unreachable());
    assert!(!Body { locals: vec![], code: vec![0x01] }.is_unreachable());
    assert!(!Body { locals: vec![], code: vec![] }.is_unreachable());
}

#[test]
fn function_snip_keeps_name_and_signature() {
    let mut f = function(
        "f",
        vec![ValType::I32, ValType::F32],
        vec![ValType::I64],
        Body { locals: vec![(3, ValType::V128)], code: vec![0x20, 0x00, 0x1a] },
    );
    assert!(f.is_local());
    f.snip();
    assert_eq!(f.name, Some("f".to_string()));
    assert_eq!(f.signature.params, vec![ValType::I32, ValType::F32]);
    assert_eq!(f.signature.results, vec![ValType::I64]);
    assert_eq!(f.kind, unreachable_body());
    assert!(f.is_local());
}

#[test]
fn signatures_are_preserved() {
    let mut module = Module {
        funcs: vec![
            function(
                "f",
                vec![ValType::I32, ValType::Ref(RefType::funcref())],
                vec![ValType::F64, ValType::Ref(RefType::externref())],
                Body { locals: vec![], code: vec![0x01] },
            ),
            function("g", vec![ValType::I64], vec![], Body { locals: vec![], code: vec![0x01] }),
        ],
    };
    let before = module.clone();
    snip(&mut module, &targets_of(&[0, 1])).unwrap();
    for i in 0..2 {
        assert_eq!(module.funcs[i].signature, before.funcs[i].signature);
        assert_eq!(module.funcs[i].name, before.funcs[i].name);
        assert_eq!(module.funcs[i].kind, unreachable_body());
    }
}

#[test]
fn functions_that_are_no_targets_are_unchanged() {
    let before = three_functions();
    let mut module = three_functions();
    snip(&mut module, &targets_of(&[2, 0])).unwrap();
    assert_eq!(module.funcs[1], before.funcs[1]);
    assert_eq!(module.funcs[0].kind, unreachable_body());
    assert_eq!(module.funcs[2].kind, unreachable_body());
}

#[test]
fn snipping_twice_is_snipping_once() {
    let options = named(&["b", "c"]);
    let mut once = three_functions();
    snip_with_options(&mut once, &options).unwrap();
    let first = select(&once, &options).unwrap().to_vec();
    let mut twice = once.clone();
    snip_with_options(&mut twice, &options).unwrap();
    assert_eq!(first, vec![1, 2]);
    assert_eq!(select(&twice, &options).unwrap().to_vec(), first);
    assert_eq!(twice, once);
    match &twice.funcs[1].kind {
        FunctionKind::Local(body) => assert_eq!(body.code.len(), 1),
        FunctionKind::Import => panic!("b is a local function"),
    }
}

#[test]
fn order_of_targets_does_not_matter() {
    let mut forward = three_functions();
    let mut backward = three_functions();
    snip(&mut forward, &targets_of(&[0, 1, 2])).unwrap();
    snip(&mut backward, &targets_of(&[2, 1, 0])).unwrap();
    assert_eq!(forward, backward);
}

#[test]
fn empty_options_leave_the_module_alone() {
    let before = three_functions();
    let mut module = three_functions();
    snip_with_options(&mut module, &Options::default()).unwrap();
    assert_eq!(module, before);
}

#[test]
fn empty_target_set_leaves_the_module_alone() {
    let before = with_import();
    let mut module = with_import();
    snip(&mut module, &TargetSet::new()).unwrap();
    assert_eq!(module, before);
}

#[test]
fn import_sharing_a_name_is_left_alone() {
    let before = with_import();
    let mut module = with_import();
    snip_with_options(&mut module, &named(&["b"])).unwrap();
    assert_eq!(module.funcs[0], before.funcs[0]);
    assert_eq!(module.funcs[0].kind, FunctionKind::Import);
    assert_eq!(module.funcs[2].kind, unreachable_body());
    assert_eq!(module.funcs[1], before.funcs[1]);
    assert_eq!(module.funcs[3], before.funcs[3]);
}

#[test]
fn target_out_of_range_is_invalid() {
    let before = three_functions();
    let mut module = three_functions();
    let result = snip(&mut module, &targets_of(&[1, 3]));
    assert_eq!(result, Err(SnipError::InvalidTarget(3)));
    assert_eq!(module, before);
}

#[test]
fn imported_target_is_invalid() {
    let before = with_import();
    let mut module = with_import();
    let result = snip(&mut module, &targets_of(&[2, 0, 1]));
    assert_eq!(result, Err(SnipError::InvalidTarget(0)));
    assert_eq!(module, before);
}

#[test]
fn first_invalid_target_is_reported() {
    let mut module = three_functions();
    let result = snip(&mut module, &targets_of(&[0, 9, 7]));
    assert_eq!(result, Err(SnipError::InvalidTarget(9)));
    let mut empty = Module { funcs: vec![] };
    assert_eq!(snip(&mut empty, &targets_of(&[0])), Err(SnipError::InvalidTarget(0)));
    assert_eq!(empty.len(), 0);
}

#[test]
fn invalid_pattern_changes_nothing() {
    let before = three_functions();
    let mut module = three_functions();
    let mut options = named(&["a", "b", "c"]);
    options.patterns = vec!["*".to_string()];
    let result = snip_with_options(&mut module, &options);
    assert!(matches!(result, Err(SnipError::Pattern(_))));
    assert_eq!(module, before);
}

#[test]
fn pattern_snips_every_match() {
    let before = three_functions();
    let mut module = three_functions();
    let mut options = Options::default();
    options.patterns = vec!["[ac]".to_string()];
    snip_with_options(&mut module, &options).unwrap();
    assert_eq!(module.funcs[0].kind, unreachable_body());
    assert_eq!(module.funcs[1], before.funcs[1]);
    assert_eq!(module.funcs[2].kind, unreachable_body());
    assert_eq!(module.len(), 3);
}

#[test]
fn panicking_code_is_snipped_by_the_heuristic() {
    let mut module = three_functions();
    module.funcs[2].name = Some("core::panicking::panic_fmt".to_string());
    let before = module.clone();
    let mut options = Options::default();
    options.snip_rust_panicking_code = true;
    snip_with_options(&mut module, &options).unwrap();
    assert_eq!(module.funcs[2].kind, unreachable_body());
    assert_eq!(module.funcs[0], before.funcs[0]);
    assert_eq!(module.funcs[1], before.funcs[1]);
}

#[test]
fn first_invalid_gives_the_position_in_the_set() {
    let module = with_import();
    assert_eq!(first_invalid(&module, &targets_of(&[1, 2, 3])), None);
    assert_eq!(first_invalid(&module, &targets_of(&[1, 0, 4])), Some(1));
    assert_eq!(first_invalid(&module, &targets_of(&[3, 2, 4])), Some(2));
    assert_eq!(first_invalid(&module, &TargetSet::new()), None);
}

#[test]
fn reference_types_are_what_their_names_say() {
    assert_eq!(RefType::funcref(), RefType { nullable: true, heap_type: HeapType::Func });
    assert_eq!(RefType::externref(), RefType { nullable: true, heap_type: HeapType::Extern });
    assert_ne!(
        ValType::Ref(RefType { nullable: false, heap_type: HeapType::Concrete(3) }),
        ValType::Ref(RefType { nullable: false, heap_type: HeapType::Concrete(4) })
    );
}

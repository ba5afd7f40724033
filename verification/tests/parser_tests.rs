use solguard::builder::parse_source;

#[test]
fn parse_rejects_unbalanced_braces() {
    let r = parse_source("bad.rs", "fn f() {");
    assert!(r.is_err());
    let e = r.err().unwrap();
    assert_eq!(e.file, "bad.rs");
    assert_eq!(e.message, "unbalanced braces in source");
}

#[test]
fn parse_rejects_negative_depth() {
    let r = parse_source("bad.rs", "}{");
    assert!(r.is_err());
}

#[test]
fn parse_accepts_empty_file() {
    let t = parse_source("empty.rs", "").unwrap();
    assert_eq!(t.file, "empty.rs");
    assert_eq!(t.functions.len(), 0);
}

#[test]
fn parse_file_without_functions() {
    let t = parse_source("none.rs", "struct S { a: u32 }\n").unwrap();
    assert_eq!(t.functions.len(), 0);
}

#[test]
fn parse_one_function_with_params_and_stmts() {
    let src = "#[test]\nfn compute(x: u32, y: MyType) -> u32 {\n  let z = x + 1;\n  z\n}\n";
    let t = parse_source("one.rs", src).unwrap();
    assert_eq!(t.functions.len(), 1);
    let f = &t.functions[0];
    assert_eq!(f.name, "compute");
    assert_eq!(f.line, 2);
    assert_eq!(f.column, 1);
    assert_eq!(f.sig_text, "fn compute(x: u32, y: MyType)");
    assert_eq!(f.attrs.len(), 1);
    assert_eq!(f.attrs[0].text, "#[test]");
    assert_eq!(f.attrs[0].line, 1);
    assert_eq!(f.attrs[0].column, 1);
    assert_eq!(f.params.len(), 2);
    assert_eq!(f.params[0].name, "x");
    assert_eq!(f.params[0].ty, "u32");
    assert_eq!(f.params[1].name, "y");
    assert_eq!(f.params[1].ty, "MyType");
    assert_eq!(f.stmts.len(), 2);
    assert_eq!(f.stmts[0].text, "let z = x + 1;");
    assert_eq!(f.stmts[0].line, 3);
    assert_eq!(f.stmts[1].text, "z");
    assert_eq!(f.stmts[1].line, 4);
}

#[test]
fn parse_single_line_function() {
    let t = parse_source("line.rs", "fn f(){}").unwrap();
    assert_eq!(t.functions.len(), 1);
    assert_eq!(t.functions[0].name, "f");
    assert_eq!(t.functions[0].params.len(), 0);
    assert_eq!(t.functions[0].stmts.len(), 0);
}

#[test]
fn parse_two_functions_attrs_attach_to_nearest() {
    let src = "fn a() { x(); }\n#[inline]\nfn b() { y(); }\n";
    let t = parse_source("two.rs", src).unwrap();
    assert_eq!(t.functions.len(), 2);
    assert_eq!(t.functions[0].name, "a");
    assert_eq!(t.functions[0].attrs.len(), 0);
    assert_eq!(t.functions[1].name, "b");
    assert_eq!(t.functions[1].attrs.len(), 1);
    assert_eq!(t.functions[1].attrs[0].text, "#[inline]");
    assert_eq!(t.functions[1].attrs[0].line, 2);
}

#[test]
fn parse_ignores_nested_fn_keyword() {
    // the inner `fn` stands at brace depth 1 and is not a declaration
    let src = "fn outer() { let c = |x| x; fn_like(); }\n";
    let t = parse_source("nested.rs", src).unwrap();
    assert_eq!(t.functions.len(), 1);
    assert_eq!(t.functions[0].name, "outer");
}

#[test]
fn parse_statement_positions_are_one_based() {
    let src = "fn w(account: AccountInfo) { account.lamports -= amount; }";
    let t = parse_source("w.rs", src).unwrap();
    let f = &t.functions[0];
    assert_eq!(f.stmts.len(), 1);
    assert_eq!(f.stmts[0].line, 1);
    let expected_col = src.find("account.lamports").unwrap() + 1;
    assert_eq!(f.stmts[0].column, expected_col);
    assert_eq!(f.stmts[0].text, "account.lamports -= amount;");
}

#[test]
fn parse_generic_parameter_with_inner_comma() {
    let src = "fn load(map: HashMap<String, u32>, flag: bool) { body(); }";
    let t = parse_source("g.rs", src).unwrap();
    let f = &t.functions[0];
    assert_eq!(f.params.len(), 2);
    assert_eq!(f.params[0].name, "map");
    assert_eq!(f.params[0].ty, "HashMap<String, u32>");
    assert_eq!(f.params[1].name, "flag");
    assert_eq!(f.params[1].ty, "bool");
}

#[test]
fn parse_attribute_with_nested_brackets() {
    let src = "#[account(init, seeds = [SEED])]\nfn setup(a: u8) { body(); }\n";
    let t = parse_source("n.rs", src).unwrap();
    let f = &t.functions[0];
    assert_eq!(f.attrs.len(), 1);
    assert_eq!(f.attrs[0].text, "#[account(init, seeds = [SEED])]");
}

#[test]
fn parse_reference_parameter_type() {
    let src = "fn check(account: &AccountInfo) { account.use_it(); }";
    let t = parse_source("r2.rs", src).unwrap();
    let f = &t.functions[0];
    assert_eq!(f.params[0].ty, "&AccountInfo");
}

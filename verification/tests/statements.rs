use cdsl::{CExpr, CStmt, ToC};
use std::rc::Rc;

fn lit(s: &str) -> Rc<CExpr> {
    Rc::new(CExpr::Lit(String::from(s)))
}

fn stmt(s: &str) -> Rc<CStmt> {
    Rc::new(CStmt::Expr(lit(s)))
}

#[test]
fn expression_statement() {
    assert_eq!(CStmt::Expr(lit("x")).export(), "(x);");
}

#[test]
fn if_statement() {
    let s = CStmt::IF { cond: lit("c"), body: stmt("a") };
    assert_eq!(s.export(), "if ((c))(a);");
}

#[test]
fn while_statement() {
    let s = CStmt::While { cond: lit("c"), body: stmt("a") };
    assert_eq!(s.export(), "while ((c))(a);");
}

#[test]
fn for_statement() {
    let s = CStmt::For { init: lit("i"), test: lit("t"), updt: lit("u"), body: stmt("b") };
    assert_eq!(s.export(), "for ((i);(t);(u))(b);");
}

#[test]
fn empty_block() {
    assert_eq!(CStmt::Block(Vec::new()).export(), "");
}

#[test]
fn block_of_one_statement() {
    assert_eq!(CStmt::Block(vec![stmt("a")]).export(), "(a);");
}

#[test]
fn block_keeps_the_order_of_its_statements() {
    let b = CStmt::Block(vec![stmt("first"), stmt("second"), stmt("third")]);
    let out = b.export();
    assert_eq!(out, "(first);(second);(third);");
    let a = out.find("(first);").unwrap();
    let m = out.find("(second);").unwrap();
    let z = out.find("(third);").unwrap();
    assert!(a < m && m < z);
    assert_eq!(a, 0);
    assert_eq!(m, a + "(first);".len());
    assert_eq!(z, m + "(second);".len());
    assert_eq!(out.len(), z + "(third);".len());
}

#[test]
fn block_with_the_statements_swapped_renders_swapped() {
    let ab = CStmt::Block(vec![stmt("a"), stmt("b")]);
    let ba = CStmt::Block(vec![stmt("b"), stmt("a")]);
    assert_eq!(ab.export(), "(a);(b);");
    assert_eq!(ba.export(), "(b);(a);");
}

#[test]
fn block_with_equal_statements_keeps_each() {
    let s = stmt("x");
    let b = CStmt::Block(vec![Rc::clone(&s), Rc::clone(&s), Rc::clone(&s)]);
    assert_eq!(b.export(), "(x);(x);(x);");
}

#[test]
fn nested_blocks() {
    let inner = Rc::new(CStmt::Block(vec![stmt("b"), stmt("c")]));
    let outer = CStmt::Block(vec![stmt("a"), inner, stmt("d")]);
    assert_eq!(outer.export(), "(a);(b);(c);(d);");
}

#[test]
fn block_as_a_body() {
    let body = Rc::new(CStmt::Block(vec![stmt("a"), stmt("b")]));
    let s = CStmt::While { cond: lit("c"), body };
    assert_eq!(s.export(), "while ((c))(a);(b);");
}

#[test]
fn if_inside_for() {
    let inner = Rc::new(CStmt::IF { cond: lit("p"), body: stmt("q") });
    let s = CStmt::For { init: lit("i"), test: lit("t"), updt: lit("u"), body: inner };
    assert_eq!(s.export(), "for ((i);(t);(u))if ((p))(q);");
}

#[test]
fn export_all_concatenates() {
    let mut s = String::from(">");
    CStmt::export_all(&vec![stmt("a"), stmt("b")], &mut s);
    assert_eq!(s, ">(a);(b);");
    CStmt::export_all(&Vec::new(), &mut s);
    assert_eq!(s, ">(a);(b);");
}

#[test]
fn statement_export_internal_appends() {
    let mut s = String::from("{");
    CStmt::Expr(lit("x")).export_internal(&mut s);
    assert_eq!(s, "{(x);");
}

#[test]
fn statement_rendered_twice_is_the_same() {
    let body = Rc::new(CStmt::Block(vec![stmt("a"), stmt("b")]));
    let s = CStmt::IF { cond: lit("c"), body };
    let first = s.export();
    let second = s.export();
    assert_eq!(first, second);
    assert_eq!(first.as_bytes(), second.as_bytes());
}

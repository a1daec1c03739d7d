//! C expressions, rendered with every operand in parentheses.
//!
//! No table of operator precedence is consulted: each operand, and each literal, is put in
//! parentheses of its own, whatever stands around it. The nested parentheses that result are
//! redundant to the eye and intended.

use std::rc::Rc;
use vstd::prelude::*;
use vstd::string::*;
use crate::render::ToC;
use crate::text::{join, lemma_join_take};
use crate::types::CType;

verus! {

/// A C expression. Operators and literals are lexemes that are written out as they are.
pub enum CExpr {
    /// `left op right`.
    BinOp { op: String, left: Rc<CExpr>, right: Rc<CExpr> },
    /// Operator `op` applied to `ex`; the operator is written behind the operand.
    PreUnOp { op: String, ex: Rc<CExpr> },
    /// Operator `op` applied to `ex`; the operator is written in front of the operand.
    PostUnOp { op: String, ex: Rc<CExpr> },
    /// Element `index` of `expr`.
    ArrIndexOp { index: Rc<CExpr>, expr: Rc<CExpr> },
    /// Call of `expr` with the arguments `ands`, which are separated by commas.
    FunCallOp { expr: Rc<CExpr>, ands: Vec<Rc<CExpr>> },
    /// Conversion of `ex` to the type `typ`.
    Cast { ex: Rc<CExpr>, typ: Rc<CType> },
    /// A lexeme that is written out as it is.
    Lit(String),
}

impl CExpr {
    /// The texts of the expressions `es`, in order.
    pub open spec fn texts(es: Seq<Rc<CExpr>>) -> Seq<Seq<char>>
        decreases es,
    {
        if es.len() == 0 {
            Seq::empty()
        } else {
            CExpr::texts(es.drop_last()).push(es.last().text())
        }
    }

    /// `texts` keeps the number and the order of the expressions.
    pub proof fn lemma_texts(es: Seq<Rc<CExpr>>)
        ensures
            CExpr::texts(es).len() == es.len(),
            forall|i: int| 0 <= i < es.len() ==> #[trigger] CExpr::texts(es)[i] == es[i].text(),
        decreases es.len(),
    {
        if es.len() > 0 {
            CExpr::lemma_texts(es.drop_last());
            assert(CExpr::texts(es) == CExpr::texts(es.drop_last()).push(es.last().text()));
        }
    }
}

impl ToC for CExpr {
    open spec fn text(&self) -> Seq<char>
        decreases self,
    {
        match self {
            CExpr::BinOp { op, left, right } => "("@ + left.text() + ")"@ + op@ + "("@
                + right.text() + ")"@,
            CExpr::PreUnOp { op, ex } => "("@ + ex.text() + ")"@ + op@,
            CExpr::PostUnOp { op, ex } => op@ + "("@ + ex.text() + ")"@,
            CExpr::ArrIndexOp { index, expr } => "("@ + expr.text() + ")["@ + index.text() + "]"@,
            CExpr::FunCallOp { expr, ands } => "("@ + expr.text() + ")("@ + join(
                CExpr::texts(ands@),
                ","@,
            ) + ")"@,
            CExpr::Cast { ex, typ } => "("@ + typ.text() + ")("@ + ex.text() + ")"@,
            CExpr::Lit(lit) => "("@ + lit@ + ")"@,
        }
    }

    fn export_internal(&self, s: &mut String)
        decreases self,
    {
        match self {
            CExpr::BinOp { op, left, right } => {
                s.append("(");
                left.export_internal(s);
                s.append(")");
                s.append(op.as_str());
                s.append("(");
                right.export_internal(s);
                s.append(")");
            },
            CExpr::PreUnOp { op, ex } => {
                s.append("(");
                ex.export_internal(s);
                s.append(")");
                s.append(op.as_str());
            },
            CExpr::PostUnOp { op, ex } => {
                s.append(op.as_str());
                s.append("(");
                ex.export_internal(s);
                s.append(")");
            },
            CExpr::ArrIndexOp { index, expr } => {
                s.append("(");
                expr.export_internal(s);
                s.append(")[");
                index.export_internal(s);
                s.append("]");
            },
            CExpr::FunCallOp { expr, ands } => {
                s.append("(");
                expr.export_internal(s);
                s.append(")(");
                let ghost head = s@;
                let ghost args = CExpr::texts(ands@);
                let mut i: usize = 0;
                while i < ands.len()
                    invariant
                        i <= ands.len(),
                        self matches CExpr::FunCallOp { ands: a, .. } && a == ands,
                        args == CExpr::texts(ands@),
                        s@ == head + join(args.take(i as int), ","@),
                    decreases ands.len() - i,
                {
                    proof {
                        CExpr::lemma_texts(ands@);
                        lemma_join_take(args, ","@, i as int);
                    }
                    if i > 0 {
                        s.append(",");
                    }
                    ands[i].export_internal(s);
                    i += 1;
                }
                proof {
                    CExpr::lemma_texts(ands@);
                    assert(args.take(i as int) =~= args);
                }
                s.append(")");
            },
            CExpr::Cast { ex, typ } => {
                s.append("(");
                typ.export_internal(s);
                s.append(")(");
                ex.export_internal(s);
                s.append(")");
            },
            CExpr::Lit(lit) => {
                s.append("(");
                s.append(lit.as_str());
                s.append(")");
            },
        }
    }
}

} // verus!

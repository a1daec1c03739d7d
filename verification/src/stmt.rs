//! C statements.
//!
//! A body is a single statement. A block stands for its statements in a row: its text is
//! their texts one after another, with nothing added around or between them.

use std::rc::Rc;
use vstd::prelude::*;
use vstd::string::*;
use crate::expr::CExpr;
use crate::render::ToC;
use crate::text::{concat, lemma_concat_in_order, lemma_concat_take, offset};

verus! {

/// A C statement.
pub enum CStmt {
    /// `body` runs if `cond` holds.
    IF { cond: Rc<CExpr>, body: Rc<CStmt> },
    /// `body` runs as long as `cond` holds.
    While { cond: Rc<CExpr>, body: Rc<CStmt> },
    /// A loop with the clauses `init`, `test` and `updt`, which are separated by `;`, and the
    /// statement `body`.
    For { init: Rc<CExpr>, test: Rc<CExpr>, updt: Rc<CExpr>, body: Rc<CStmt> },
    /// A sequence of statements, written one after another in the order given.
    Block(Vec<Rc<CStmt>>),
    /// An expression evaluated for its effect, closed by `;`.
    Expr(Rc<CExpr>),
}

impl CStmt {
    /// The texts of the statements `ss`, in order.
    pub open spec fn texts(ss: Seq<Rc<CStmt>>) -> Seq<Seq<char>>
        decreases ss,
    {
        if ss.len() == 0 {
            Seq::empty()
        } else {
            CStmt::texts(ss.drop_last()).push(ss.last().text())
        }
    }

    /// `texts` keeps the number and the order of the statements.
    pub proof fn lemma_texts(ss: Seq<Rc<CStmt>>)
        ensures
            CStmt::texts(ss).len() == ss.len(),
            forall|i: int| 0 <= i < ss.len() ==> #[trigger] CStmt::texts(ss)[i] == ss[i].text(),
        decreases ss.len(),
    {
        if ss.len() > 0 {
            CStmt::lemma_texts(ss.drop_last());
            assert(CStmt::texts(ss) == CStmt::texts(ss.drop_last()).push(ss.last().text()));
        }
    }

    /// Appends the texts of the statements `stmts` to `s`, one after another.
    pub fn export_all(stmts: &Vec<Rc<CStmt>>, s: &mut String)
        ensures
            final(s)@ == old(s)@ + concat(CStmt::texts(stmts@)),
        decreases stmts,
    {
        let ghost parts = CStmt::texts(stmts@);
        proof {
            CStmt::lemma_texts(stmts@);
        }
        let mut i: usize = 0;
        while i < stmts.len()
            invariant
                i <= stmts.len(),
                parts.len() == stmts.len(),
                forall|k: int| 0 <= k < stmts.len() ==> #[trigger] parts[k] == stmts[k].text(),
                s@ == old(s)@ + concat(parts.take(i as int)),
            decreases stmts.len() - i,
        {
            proof {
                lemma_concat_take(parts, i as int);
            }
            stmts[i].export_internal(s);
            i += 1;
        }
        assert(parts.take(i as int) =~= parts);
    }
}

/// The statements of a block appear in its text in the order in which the block holds them,
/// with nothing between them: statement `k` fills exactly the span that begins where the
/// statements before it end.
pub proof fn lemma_block_in_order(block: CStmt, k: int)
    requires
        block is Block,
        0 <= k < block->Block_0.len(),
    ensures
        ({
            let parts = CStmt::texts(block->Block_0@);
            &&& parts.len() == block->Block_0.len()
            &&& offset(parts, 0) == 0
            &&& offset(parts, parts.len() as int) == block.text().len()
            &&& offset(parts, k + 1) == offset(parts, k) + block->Block_0[k].text().len()
            &&& offset(parts, k + 1) <= block.text().len()
            &&& block.text().subrange(offset(parts, k), offset(parts, k + 1))
                == block->Block_0[k].text()
        }),
{
    CStmt::lemma_texts(block->Block_0@);
    lemma_concat_in_order(CStmt::texts(block->Block_0@), k);
}

impl ToC for CStmt {
    open spec fn text(&self) -> Seq<char>
        decreases self,
    {
        match self {
            CStmt::IF { cond, body } => "if ("@ + cond.text() + ")"@ + body.text(),
            CStmt::While { cond, body } => "while ("@ + cond.text() + ")"@ + body.text(),
            CStmt::For { init, test, updt, body } => "for ("@ + init.text() + ";"@ + test.text()
                + ";"@ + updt.text() + ")"@ + body.text(),
            CStmt::Block(body) => concat(CStmt::texts(body@)),
            CStmt::Expr(body) => body.text() + ";"@,
        }
    }

    fn export_internal(&self, s: &mut String)
        decreases self,
    {
        match self {
            CStmt::IF { cond, body } => {
                s.append("if (");
                cond.export_internal(s);
                s.append(")");
                body.export_internal(s);
            },
            CStmt::While { cond, body } => {
                s.append("while (");
                cond.export_internal(s);
                s.append(")");
                body.export_internal(s);
            },
            CStmt::For { init, test, updt, body } => {
                s.append("for (");
                init.export_internal(s);
                s.append(";");
                test.export_internal(s);
                s.append(";");
                updt.export_internal(s);
                s.append(")");
                body.export_internal(s);
            },
            CStmt::Block(body) => {
                CStmt::export_all(body, s);
            },
            CStmt::Expr(body) => {
                body.export_internal(s);
                s.append(";");
            },
        }
    }
}

} // verus!

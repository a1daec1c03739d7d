//! Top-level C declarations.
//!
//! A function is written as the declarator of its return type around the name and the
//! parameter list, followed by the body in braces. A struct or union lists its members
//! between braces, each closed by `;`; one without members holds a lone `;` there. A
//! variable is written as its declarator, directly followed by its initializer where it has
//! one: no `=` is put between the two, and nothing behind them.

use std::rc::Rc;
use vstd::prelude::*;
use vstd::string::*;
use crate::expr::CExpr;
use crate::render::ToC;
use crate::stmt::CStmt;
use crate::text::{concat, join, lemma_concat_take, lemma_join_take};
use crate::types::CType;

verus! {

/// A top-level C declaration.
pub enum CDecl {
    /// The function `name` with return type `typ`, parameters `args` and the statements `body`.
    Fun { name: String, typ: Rc<CType>, args: Vec<(String, Rc<CType>)>, body: Vec<Rc<CStmt>> },
    /// The struct `name` with the given members, each a name and a type.
    Struct { name: String, members: Vec<(String, Rc<CType>)> },
    /// The union `name` with the given members, each a name and a type.
    Union { name: String, members: Vec<(String, Rc<CType>)> },
    /// The variable `name` of type `typ`, with an optional initializer.
    Var { name: String, typ: Rc<CType>, init: Option<Rc<CExpr>> },
}

impl CDecl {
    /// The declarators of the named items, in order.
    pub open spec fn declarators(items: Seq<(String, Rc<CType>)>) -> Seq<Seq<char>> {
        Seq::new(items.len(), |i: int| items[i].1.declarator(items[i].0@))
    }

    /// The member declarations of a struct or union: each declarator followed by `;`.
    pub open spec fn member_lines(items: Seq<(String, Rc<CType>)>) -> Seq<Seq<char>> {
        Seq::new(items.len(), |i: int| items[i].1.declarator(items[i].0@) + ";"@)
    }

    /// The function declarator: the name followed by the parameter list in parentheses.
    pub open spec fn signature(name: Seq<char>, args: Seq<(String, Rc<CType>)>) -> Seq<char> {
        name + "("@ + join(CDecl::declarators(args), ","@) + ")"@
    }

    /// What stands between the braces of a struct or union: the member declarations one
    /// after another, or a lone `;` where there is no member.
    pub open spec fn record_body(members: Seq<(String, Rc<CType>)>) -> Seq<char> {
        if members.len() == 0 {
            ";"@
        } else {
            concat(CDecl::member_lines(members))
        }
    }

    /// The definition of a struct or union introduced by `keyword`.
    pub open spec fn record(
        keyword: Seq<char>,
        name: Seq<char>,
        members: Seq<(String, Rc<CType>)>,
    ) -> Seq<char> {
        keyword + name + "{"@ + CDecl::record_body(members) + "};"@
    }

    /// Renders the function declarator for `name` and `args`.
    pub fn export_signature(name: &str, args: &Vec<(String, Rc<CType>)>) -> (f: String)
        ensures
            f@ == CDecl::signature(name@, args@),
    {
        let ghost params = CDecl::declarators(args@);
        let mut f = String::from_str(name);
        f.append("(");
        let mut i: usize = 0;
        while i < args.len()
            invariant
                i <= args.len(),
                params == CDecl::declarators(args@),
                f@ == name@ + "("@ + join(params.take(i as int), ","@),
            decreases args.len() - i,
        {
            proof {
                lemma_join_take(params, ","@, i as int);
            }
            if i > 0 {
                f.append(",");
            }
            f.append(args[i].1.export_with_name(args[i].0.as_str()).as_str());
            i += 1;
        }
        assert(params.take(i as int) =~= params);
        f.append(")");
        f
    }

    /// Appends the definition of a struct or union introduced by `keyword` to `s`.
    pub fn export_record(
        keyword: &str,
        name: &str,
        members: &Vec<(String, Rc<CType>)>,
        s: &mut String,
    )
        ensures
            final(s)@ == old(s)@ + CDecl::record(keyword@, name@, members@),
    {
        let ghost lines = CDecl::member_lines(members@);
        s.append(keyword);
        s.append(name);
        s.append("{");
        let mut i: usize = 0;
        while i < members.len()
            invariant
                i <= members.len(),
                lines == CDecl::member_lines(members@),
                s@ == old(s)@ + keyword@ + name@ + "{"@ + concat(lines.take(i as int)),
            decreases members.len() - i,
        {
            proof {
                lemma_concat_take(lines, i as int);
            }
            s.append(members[i].1.export_with_name(members[i].0.as_str()).as_str());
            s.append(";");
            i += 1;
        }
        assert(lines.take(i as int) =~= lines);
        if members.len() == 0 {
            s.append(";");
        }
        s.append("};");
    }
}

impl ToC for CDecl {
    open spec fn text(&self) -> Seq<char> {
        match self {
            CDecl::Fun { name, typ, args, body } => typ.declarator(
                CDecl::signature(name@, args@),
            ) + "{"@ + concat(CStmt::texts(body@)) + "}"@,
            CDecl::Struct { name, members } => CDecl::record("struct "@, name@, members@),
            CDecl::Union { name, members } => CDecl::record("union "@, name@, members@),
            CDecl::Var { name, typ, init } => typ.declarator(name@) + (match init {
                Some(e) => e.text(),
                None => Seq::empty(),
            }),
        }
    }

    fn export_internal(&self, s: &mut String) {
        match self {
            CDecl::Fun { name, typ, args, body } => {
                let f = CDecl::export_signature(name.as_str(), args);
                s.append(typ.export_with_name(f.as_str()).as_str());
                s.append("{");
                CStmt::export_all(body, s);
                s.append("}");
            },
            CDecl::Struct { name, members } => {
                CDecl::export_record("struct ", name.as_str(), members, s);
            },
            CDecl::Union { name, members } => {
                CDecl::export_record("union ", name.as_str(), members, s);
            },
            CDecl::Var { name, typ, init } => {
                s.append(typ.export_with_name(name.as_str()).as_str());
                if let Some(e) = init {
                    e.export_internal(s);
                }
            },
        }
    }
}

} // verus!

//! C types and the composition of declarators.

use std::rc::Rc;
use vstd::prelude::*;
use vstd::string::*;
use vstd::utf8::encode_utf8;
use crate::render::ToC;
use crate::text::{decimal, push_decimal};

verus! {

/// A C type: a chain of pointer and array layers that ends in a leaf.
pub enum CType {
    /// Pointer to `to`.
    Ptr { to: Rc<CType> },
    /// Array of `len` elements of type `of`.
    Arr { of: Rc<CType>, len: usize },
    /// Fixed-width integer of `size` bits, signed if `sign` holds: `int32_t` is
    /// `Int { size: 32, sign: true }`, and `uint32_t` is the same with `sign: false`.
    Int { size: usize, sign: bool },
    /// The struct type called `name`.
    Struct { name: String },
    /// The union type called `name`.
    Union { name: String },
}

impl CType {
    /// The declarator that declares `name` with this type.
    ///
    /// The layers are visited from the outermost to the leaf, and each one wraps what has been
    /// built so far, so that the name ends up where a value of the type would be used: a
    /// pointer puts `*` in front, an array puts the text in parentheses and its length in
    /// brackets behind, and the leaf puts its own name and a space in front. The name is
    /// taken as it is and may be empty.
    pub open spec fn declarator(&self, name: Seq<char>) -> Seq<char>
        decreases self,
    {
        match self {
            CType::Ptr { to } => to.declarator("*"@ + name),
            CType::Arr { of, len } => of.declarator(
                "("@ + name + ")["@ + decimal(*len as nat) + "]"@,
            ),
            CType::Int { size, sign } => (if *sign {
                ""@
            } else {
                "u"@
            }) + "int"@ + decimal(*size as nat) + "_t "@ + name,
            CType::Struct { name: tag } => "struct "@ + tag@ + " "@ + name,
            CType::Union { name: tag } => "union "@ + tag@ + " "@ + name,
        }
    }

    /// What the declarator of this type puts in front of the declared name.
    pub open spec fn before_name(&self) -> Seq<char>
        decreases self,
    {
        match self {
            CType::Ptr { to } => to.before_name() + "*"@,
            CType::Arr { of, len } => of.before_name() + "("@,
            _ => self.declarator(Seq::empty()),
        }
    }

    /// What the declarator of this type puts behind the declared name.
    pub open spec fn after_name(&self) -> Seq<char>
        decreases self,
    {
        match self {
            CType::Ptr { to } => to.after_name(),
            CType::Arr { of, len } => ")["@ + decimal(*len as nat) + "]"@ + of.after_name(),
            _ => Seq::empty(),
        }
    }

    /// The declarator is the declared name, as it is, between two texts that the type alone
    /// decides.
    pub proof fn lemma_declarator_around_name(&self, name: Seq<char>)
        ensures
            self.declarator(name) == self.before_name() + name + self.after_name(),
        decreases self,
    {
        match self {
            CType::Ptr { to } => {
                to.lemma_declarator_around_name("*"@ + name);
            },
            CType::Arr { of, len } => {
                of.lemma_declarator_around_name("("@ + name + ")["@ + decimal(*len as nat) + "]"@);
            },
            _ => {},
        }
    }

    /// Renders the declaration of `name` with this type.
    pub fn export_with_name(&self, name: &str) -> (r: String)
        ensures
            r@ == self.declarator(name@),
    {
        let mut typ: &CType = self;
        let mut decl: String = name.to_owned();
        loop
            invariant_except_break
                self.declarator(name@) == typ.declarator(decl@),
            ensures
                decl@ == self.declarator(name@),
            decreases typ,
        {
            match typ {
                CType::Ptr { to } => {
                    let mut t = String::from_str("*");
                    t.append(decl.as_str());
                    decl = t;
                    typ = &**to;
                },
                CType::Arr { of, len } => {
                    let mut t = String::from_str("(");
                    t.append(decl.as_str());
                    t.append(")[");
                    push_decimal(&mut t, *len);
                    t.append("]");
                    decl = t;
                    typ = &**of;
                },
                CType::Int { size, sign } => {
                    let mut t = String::from_str(if *sign { "" } else { "u" });
                    t.append("int");
                    push_decimal(&mut t, *size);
                    t.append("_t ");
                    t.append(decl.as_str());
                    decl = t;
                    break;
                },
                CType::Struct { name: tag } => {
                    let mut t = String::from_str("struct ");
                    t.append(tag.as_str());
                    t.append(" ");
                    t.append(decl.as_str());
                    decl = t;
                    break;
                },
                CType::Union { name: tag } => {
                    let mut t = String::from_str("union ");
                    t.append(tag.as_str());
                    t.append(" ");
                    t.append(decl.as_str());
                    decl = t;
                    break;
                },
            }
        }
        decl
    }
}

/// Two renderings of one type with one name are the same text.
pub proof fn lemma_export_with_name_deterministic(
    typ: &CType,
    name: &str,
    first: String,
    second: String,
)
    requires
        call_ensures(CType::export_with_name, (typ, name), first),
        call_ensures(CType::export_with_name, (typ, name), second),
    ensures
        first@ == second@,
        encode_utf8(first@) == encode_utf8(second@),
{
}

impl ToC for CType {
    /// A type on its own is written as the declarator of the empty name.
    open spec fn text(&self) -> Seq<char> {
        self.declarator(Seq::empty())
    }

    fn export_internal(&self, s: &mut String) {
        proof {
            reveal_strlit("");
        }
        s.append(self.export_with_name("").as_str());
    }
}

} // verus!

//! The low-level form that later stages work on: functions made of basic
//! blocks, blocks made of typed operations on numbered values. This module
//! holds the shapes and how they are written; nothing here produces them.

use crate::common::sepvec::spec_texts;
use crate::common::text::{decimal, join_strings, spec_decimal, spec_join, ToText};
use crate::common::util::join;
use vstd::prelude::*;

verus! {

/// The number of a value.
pub type IR3VarID = u32;

/// The number of a basic block.
pub type IR3BBID = u32;

/// The type of a value: data of so many bits, a pointer, or nothing.
#[derive(Debug, Clone, Copy, PartialEq, Eq, PartialOrd, Ord, Hash)]
pub enum IR3Type {
    Data(u32),
    Ptr,
    Void,
}

impl DeepView for IR3Type {
    type V = IR3Type;

    open spec fn deep_view(&self) -> IR3Type {
        *self
    }
}

/// How a type is written: `d` and the number of bits, `ptr`, or `void`.
pub open spec fn spec_ir3_type_text(t: IR3Type) -> Seq<char> {
    match t {
        IR3Type::Data(w) => "d"@ + spec_decimal(w as nat),
        IR3Type::Ptr => "ptr"@,
        IR3Type::Void => "void"@,
    }
}

impl ToText for IR3Type {
    open spec fn text(&self) -> Seq<char> {
        spec_ir3_type_text(*self)
    }

    fn to_text(&self) -> (s: String) {
        match self {
            IR3Type::Data(w) => {
                let mut s = "d".to_owned();
                s.append(decimal(*w as u64).as_str());
                s
            },
            IR3Type::Ptr => "ptr".to_owned(),
            IR3Type::Void => "void".to_owned(),
        }
    }
}

/// How two values are compared.
#[derive(Debug, Clone, Copy, PartialEq, Eq, PartialOrd, Ord, Hash)]
pub enum IR3CompareMode {
    ULt,
    UGt,
    ULe,
    UGe,
    SLt,
    SGt,
    SLe,
    SGe,
    Eq,
    Ne,
}

/// The name of a way of comparing.
pub open spec fn spec_compare_mode_name(m: IR3CompareMode) -> Seq<char> {
    match m {
        IR3CompareMode::ULt => "ult"@,
        IR3CompareMode::UGt => "ugt"@,
        IR3CompareMode::ULe => "ule"@,
        IR3CompareMode::UGe => "uge"@,
        IR3CompareMode::SLt => "slt"@,
        IR3CompareMode::SGt => "sgt"@,
        IR3CompareMode::SLe => "sle"@,
        IR3CompareMode::SGe => "sge"@,
        IR3CompareMode::Eq => "eq"@,
        IR3CompareMode::Ne => "ne"@,
    }
}

impl IR3CompareMode {
    /// The name of the way of comparing.
    pub fn name(self) -> (r: &'static str)
        ensures
            r@ == spec_compare_mode_name(self),
    {
        match self {
            IR3CompareMode::ULt => "ult",
            IR3CompareMode::UGt => "ugt",
            IR3CompareMode::ULe => "ule",
            IR3CompareMode::UGe => "uge",
            IR3CompareMode::SLt => "slt",
            IR3CompareMode::SGt => "sgt",
            IR3CompareMode::SLe => "sle",
            IR3CompareMode::SGe => "sge",
            IR3CompareMode::Eq => "eq",
            IR3CompareMode::Ne => "ne",
        }
    }
}

impl ToText for IR3CompareMode {
    open spec fn text(&self) -> Seq<char> {
        spec_compare_mode_name(*self)
    }

    fn to_text(&self) -> (s: String) {
        self.name().to_owned()
    }
}

/// A tag on a function.
#[derive(Debug, Clone, Copy, PartialEq, Eq, PartialOrd, Ord, Hash)]
pub enum IR3FunctionAttr {
    BuiltinFunction,
}

/// The name of a tag.
pub open spec fn spec_function_attr_name(a: IR3FunctionAttr) -> Seq<char> {
    match a {
        IR3FunctionAttr::BuiltinFunction => "builtin-function"@,
    }
}

impl IR3FunctionAttr {
    /// The name of the tag.
    pub fn name(self) -> (r: &'static str)
        ensures
            r@ == spec_function_attr_name(self),
    {
        match self {
            IR3FunctionAttr::BuiltinFunction => "builtin-function",
        }
    }
}

impl ToText for IR3FunctionAttr {
    open spec fn text(&self) -> Seq<char> {
        spec_function_attr_name(*self)
    }

    fn to_text(&self) -> (s: String) {
        self.name().to_owned()
    }
}

/// What a call calls: the linker name of the function and the types of its
/// arguments.
#[derive(Debug, Clone, PartialEq, Eq, PartialOrd, Ord, Hash)]
pub struct IR3Call {
    pub symbol_name: String,
    pub arg_types: Vec<IR3Type>,
}

/// What an `IR3Call` holds.
pub struct IR3CallView {
    pub symbol_name: Seq<char>,
    pub arg_types: Seq<IR3Type>,
}

impl DeepView for IR3Call {
    type V = IR3CallView;

    open spec fn deep_view(&self) -> IR3CallView {
        IR3CallView { symbol_name: self.symbol_name@, arg_types: self.arg_types@ }
    }
}

/// The blocks that the values of a phi come from, in the order of its
/// inputs.
#[derive(Debug, Clone, PartialEq, Eq, PartialOrd, Ord, Hash)]
pub struct IR3Phi {
    pub blocks: Vec<IR3BBID>,
}

/// The kinds of operation.
#[derive(Debug, Clone, PartialEq, Eq, PartialOrd, Ord, Hash)]
pub enum IR3OpKind {
    Add,
    Sub,
    Cmp(IR3CompareMode),
    And,
    Or,
    Xor,
    Not,
    Sll,
    Srl,
    Sra,
    Smull,
    Umull,
    Smulh,
    Umulh,
    Sdiv,
    Udiv,
    Srem,
    Urem,
    PtrLoad,
    PtrStore,
    PtrUadd,
    PtrSadd,
    Const(u64),
    Sext(IR3Type),
    Zext(IR3Type),
    Arg(u32),
    Call(IR3Call),
    Phi(IR3Phi),
}

/// What an `IR3OpKind` holds.
pub enum IR3OpKindView {
    Add,
    Sub,
    Cmp(IR3CompareMode),
    And,
    Or,
    Xor,
    Not,
    Sll,
    Srl,
    Sra,
    Smull,
    Umull,
    Smulh,
    Umulh,
    Sdiv,
    Udiv,
    Srem,
    Urem,
    PtrLoad,
    PtrStore,
    PtrUadd,
    PtrSadd,
    Const(u64),
    Sext(IR3Type),
    Zext(IR3Type),
    Arg(u32),
    Call(IR3CallView),
    Phi(Seq<IR3BBID>),
}

impl DeepView for IR3OpKind {
    type V = IR3OpKindView;

    open spec fn deep_view(&self) -> IR3OpKindView {
        match self {
            IR3OpKind::Add => IR3OpKindView::Add,
            IR3OpKind::Sub => IR3OpKindView::Sub,
            IR3OpKind::Cmp(m) => IR3OpKindView::Cmp(*m),
            IR3OpKind::And => IR3OpKindView::And,
            IR3OpKind::Or => IR3OpKindView::Or,
            IR3OpKind::Xor => IR3OpKindView::Xor,
            IR3OpKind::Not => IR3OpKindView::Not,
            IR3OpKind::Sll => IR3OpKindView::Sll,
            IR3OpKind::Srl => IR3OpKindView::Srl,
            IR3OpKind::Sra => IR3OpKindView::Sra,
            IR3OpKind::Smull => IR3OpKindView::Smull,
            IR3OpKind::Umull => IR3OpKindView::Umull,
            IR3OpKind::Smulh => IR3OpKindView::Smulh,
            IR3OpKind::Umulh => IR3OpKindView::Umulh,
            IR3OpKind::Sdiv => IR3OpKindView::Sdiv,
            IR3OpKind::Udiv => IR3OpKindView::Udiv,
            IR3OpKind::Srem => IR3OpKindView::Srem,
            IR3OpKind::Urem => IR3OpKindView::Urem,
            IR3OpKind::PtrLoad => IR3OpKindView::PtrLoad,
            IR3OpKind::PtrStore => IR3OpKindView::PtrStore,
            IR3OpKind::PtrUadd => IR3OpKindView::PtrUadd,
            IR3OpKind::PtrSadd => IR3OpKindView::PtrSadd,
            IR3OpKind::Const(v) => IR3OpKindView::Const(*v),
            IR3OpKind::Sext(t) => IR3OpKindView::Sext(*t),
            IR3OpKind::Zext(t) => IR3OpKindView::Zext(*t),
            IR3OpKind::Arg(i) => IR3OpKindView::Arg(*i),
            IR3OpKind::Call(c) => IR3OpKindView::Call(c.deep_view()),
            IR3OpKind::Phi(p) => IR3OpKindView::Phi(p.blocks@),
        }
    }
}

/// The name of a kind of operation.
pub open spec fn spec_op_kind_name(k: IR3OpKindView) -> Seq<char> {
    match k {
        IR3OpKindView::Add => "add"@,
        IR3OpKindView::Sub => "sub"@,
        IR3OpKindView::Cmp(_) => "cmp"@,
        IR3OpKindView::And => "and"@,
        IR3OpKindView::Or => "or"@,
        IR3OpKindView::Xor => "xor"@,
        IR3OpKindView::Not => "not"@,
        IR3OpKindView::Sll => "sll"@,
        IR3OpKindView::Srl => "srl"@,
        IR3OpKindView::Sra => "sra"@,
        IR3OpKindView::Smull => "smull"@,
        IR3OpKindView::Umull => "umull"@,
        IR3OpKindView::Smulh => "smulh"@,
        IR3OpKindView::Umulh => "umulh"@,
        IR3OpKindView::Sdiv => "sdiv"@,
        IR3OpKindView::Udiv => "udiv"@,
        IR3OpKindView::Srem => "srem"@,
        IR3OpKindView::Urem => "urem"@,
        IR3OpKindView::PtrLoad => "ptr_load"@,
        IR3OpKindView::PtrStore => "ptr_store"@,
        IR3OpKindView::PtrUadd => "ptr_uadd"@,
        IR3OpKindView::PtrSadd => "ptr_sadd"@,
        IR3OpKindView::Const(_) => "const"@,
        IR3OpKindView::Sext(_) => "sext"@,
        IR3OpKindView::Zext(_) => "zext"@,
        IR3OpKindView::Arg(_) => "arg"@,
        IR3OpKindView::Call(_) => "call"@,
        IR3OpKindView::Phi(_) => "phi"@,
    }
}

impl IR3OpKind {
    /// The name of the kind of operation.
    pub fn name(&self) -> (r: &'static str)
        ensures
            r@ == spec_op_kind_name(self.deep_view()),
    {
        match self {
            IR3OpKind::Add => "add",
            IR3OpKind::Sub => "sub",
            IR3OpKind::Cmp(_) => "cmp",
            IR3OpKind::And => "and",
            IR3OpKind::Or => "or",
            IR3OpKind::Xor => "xor",
            IR3OpKind::Not => "not",
            IR3OpKind::Sll => "sll",
            IR3OpKind::Srl => "srl",
            IR3OpKind::Sra => "sra",
            IR3OpKind::Smull => "smull",
            IR3OpKind::Umull => "umull",
            IR3OpKind::Smulh => "smulh",
            IR3OpKind::Umulh => "umulh",
            IR3OpKind::Sdiv => "sdiv",
            IR3OpKind::Udiv => "udiv",
            IR3OpKind::Srem => "srem",
            IR3OpKind::Urem => "urem",
            IR3OpKind::PtrLoad => "ptr_load",
            IR3OpKind::PtrStore => "ptr_store",
            IR3OpKind::PtrUadd => "ptr_uadd",
            IR3OpKind::PtrSadd => "ptr_sadd",
            IR3OpKind::Const(_) => "const",
            IR3OpKind::Sext(_) => "sext",
            IR3OpKind::Zext(_) => "zext",
            IR3OpKind::Arg(_) => "arg",
            IR3OpKind::Call(_) => "call",
            IR3OpKind::Phi(_) => "phi",
        }
    }
}

/// An operation: its kind, the type it works on, the values it reads and
/// the values it writes.
#[derive(Debug, Clone, PartialEq, Eq, PartialOrd, Ord, Hash)]
pub struct IR3Op {
    pub kind: IR3OpKind,
    pub ty: IR3Type,
    pub input: Vec<IR3VarID>,
    pub output: Vec<IR3VarID>,
}

/// What an `IR3Op` holds.
pub struct IR3OpView {
    pub kind: IR3OpKindView,
    pub ty: IR3Type,
    pub input: Seq<IR3VarID>,
    pub output: Seq<IR3VarID>,
}

impl DeepView for IR3Op {
    type V = IR3OpView;

    open spec fn deep_view(&self) -> IR3OpView {
        IR3OpView {
            kind: self.kind.deep_view(),
            ty: self.ty,
            input: self.input@,
            output: self.output@,
        }
    }
}

/// The type of the input at position `idx`: for a call the type of that
/// argument, for any other operation the type of the operation.
pub open spec fn spec_arg_type(op: IR3OpView, idx: int) -> IR3Type {
    match op.kind {
        IR3OpKindView::Call(call) => call.arg_types[idx],
        _ => op.ty,
    }
}

/// The type of what an operation gives: one bit for a comparison, a
/// pointer for pointer arithmetic, nothing for a store, else the type of
/// the operation.
pub open spec fn spec_return_type(op: IR3OpView) -> IR3Type {
    match op.kind {
        IR3OpKindView::Cmp(_) => IR3Type::Data(1),
        IR3OpKindView::PtrSadd => IR3Type::Ptr,
        IR3OpKindView::PtrUadd => IR3Type::Ptr,
        IR3OpKindView::PtrStore => IR3Type::Void,
        _ => op.ty,
    }
}

/// The numerals of the numbers, in order.
pub open spec fn spec_id_texts(ids: Seq<u32>) -> Seq<Seq<char>> {
    Seq::new(ids.len(), |i: int| spec_decimal(ids[i] as nat))
}

/// `left right` for each position that both lists have.
pub open spec fn spec_pairs(left: Seq<Seq<char>>, right: Seq<Seq<char>>) -> Seq<Seq<char>> {
    Seq::new(
        if left.len() <= right.len() {
            left.len()
        } else {
            right.len()
        },
        |i: int| left[i] + " "@ + right[i],
    )
}

/// How the types of a list are written, in order.
pub open spec fn spec_type_texts(types: Seq<IR3Type>) -> Seq<Seq<char>> {
    Seq::new(types.len(), |i: int| spec_ir3_type_text(types[i]))
}

/// What stands between the type and the inputs of an operation, with the
/// space before it: the way of comparing, the constant, the other type or
/// the position of the argument. Nothing for an operation that has none.
pub open spec fn spec_op_detail(k: IR3OpKindView) -> Seq<char> {
    match k {
        IR3OpKindView::Cmp(m) => " "@ + spec_compare_mode_name(m),
        IR3OpKindView::Const(v) => " "@ + spec_decimal(v as nat),
        IR3OpKindView::Sext(t) => " "@ + spec_ir3_type_text(t),
        IR3OpKindView::Zext(t) => " "@ + spec_ir3_type_text(t),
        IR3OpKindView::Arg(i) => " "@ + spec_decimal(i as nat),
        _ => Seq::empty(),
    }
}

/// How an operation is written: `$outputs = name type`, then for a call
/// the function and each argument with its type, for a phi each value with
/// its block, and for any other operation its detail and its inputs.
pub open spec fn spec_op_text(op: IR3OpView) -> Seq<char> {
    let head = "$"@ + spec_join(spec_id_texts(op.output), " $"@) + " = "@ + spec_op_kind_name(
        op.kind,
    ) + " "@ + spec_ir3_type_text(op.ty);
    match op.kind {
        IR3OpKindView::Call(call) => head + " "@ + call.symbol_name + " "@ + spec_join(
            spec_pairs(spec_type_texts(call.arg_types), spec_id_texts(op.input)),
            " "@,
        ),
        IR3OpKindView::Phi(blocks) => head + " "@ + spec_join(
            spec_pairs(spec_id_texts(op.input), spec_id_texts(blocks)),
            " "@,
        ),
        _ => head + spec_op_detail(op.kind) + " $"@ + spec_join(spec_id_texts(op.input), " $"@),
    }
}

/// `left right` for each position that both lists have, joined by spaces.
fn join_pairs(left: &Vec<String>, right: &Vec<String>) -> (r: String)
    ensures
        r@ == spec_join(spec_pairs(left.deep_view(), right.deep_view()), " "@),
{
    let n = if left.len() <= right.len() {
        left.len()
    } else {
        right.len()
    };
    let mut parts: Vec<String> = Vec::new();
    let mut i: usize = 0;
    while i < n
        invariant
            i <= n,
            n <= left.len(),
            n <= right.len(),
            parts.len() == i,
            forall|k: int|
                0 <= k < i ==> (#[trigger] parts[k])@ == left[k]@ + " "@ + right[k]@,
        decreases n - i,
    {
        let mut s = left[i].clone();
        s.append(" ");
        s.append(right[i].as_str());
        parts.push(s);
        i += 1;
    }
    assert(parts.deep_view() =~= spec_pairs(left.deep_view(), right.deep_view()));
    join_strings(&parts, " ")
}

/// The texts of the items, in order.
fn texts_of<T: ToText>(items: &Vec<T>) -> (r: Vec<String>)
    ensures
        r.deep_view() == spec_texts(items@),
{
    let mut r: Vec<String> = Vec::new();
    let mut i: usize = 0;
    while i < items.len()
        invariant
            i <= items.len(),
            r.len() == i,
            forall|k: int| 0 <= k < i ==> (#[trigger] r[k])@ == items@[k].text(),
        decreases items.len() - i,
    {
        r.push(items[i].to_text());
        i += 1;
    }
    assert(r.deep_view() =~= spec_texts(items@));
    r
}

impl IR3Op {
    /// The type of the input at position `idx`.
    pub fn arg_type(&self, idx: usize) -> (r: IR3Type)
        requires
            self.kind matches IR3OpKind::Call(call) ==> idx < call.arg_types@.len(),
        ensures
            r == spec_arg_type(self.deep_view(), idx as int),
    {
        match &self.kind {
            IR3OpKind::Call(call_info) => call_info.arg_types[idx],
            _ => self.ty,
        }
    }

    /// The type of what the operation gives.
    pub fn return_type(&self) -> (r: IR3Type)
        ensures
            r == spec_return_type(self.deep_view()),
    {
        match &self.kind {
            IR3OpKind::Cmp(_) => IR3Type::Data(1),
            IR3OpKind::PtrSadd => IR3Type::Ptr,
            IR3OpKind::PtrUadd => IR3Type::Ptr,
            IR3OpKind::PtrStore => IR3Type::Void,
            _ => self.ty,
        }
    }

    fn detail(&self) -> (r: String)
        ensures
            r@ == spec_op_detail(self.kind.deep_view()),
    {
        let mut s = String::new();
        match &self.kind {
            IR3OpKind::Cmp(m) => {
                s.append(" ");
                s.append(m.name());
            },
            IR3OpKind::Const(v) => {
                s.append(" ");
                s.append(decimal(*v).as_str());
            },
            IR3OpKind::Sext(t) => {
                s.append(" ");
                s.append(t.to_text().as_str());
            },
            IR3OpKind::Zext(t) => {
                s.append(" ");
                s.append(t.to_text().as_str());
            },
            IR3OpKind::Arg(i) => {
                s.append(" ");
                s.append(decimal(*i as u64).as_str());
            },
            _ => {},
        }
        proof {
            assert(s@ =~= spec_op_detail(self.kind.deep_view()));
        }
        s
    }
}

impl ToText for IR3Op {
    open spec fn text(&self) -> Seq<char> {
        spec_op_text(self.deep_view())
    }

    fn to_text(&self) -> (s: String) {
        proof {
            assert(spec_texts(self.output@) =~= spec_id_texts(self.output@));
            assert(spec_texts(self.input@) =~= spec_id_texts(self.input@));
        }
        let mut s = "$".to_owned();
        s.append(join(self.output.as_slice(), " $").as_str());
        s.append(" = ");
        s.append(self.kind.name());
        s.append(" ");
        s.append(self.ty.to_text().as_str());
        match &self.kind {
            IR3OpKind::Call(call) => {
                s.append(" ");
                s.append(call.symbol_name.as_str());
                s.append(" ");
                let types = texts_of(&call.arg_types);
                let vars = texts_of(&self.input);
                proof {
                    assert(spec_texts(call.arg_types@) =~= spec_type_texts(call.arg_types@));
                }
                s.append(join_pairs(&types, &vars).as_str());
            },
            IR3OpKind::Phi(phi) => {
                s.append(" ");
                let vars = texts_of(&self.input);
                let blocks = texts_of(&phi.blocks);
                proof {
                    assert(spec_texts(phi.blocks@) =~= spec_id_texts(phi.blocks@));
                }
                s.append(join_pairs(&vars, &blocks).as_str());
            },
            _ => {
                s.append(self.detail().as_str());
                s.append(" $");
                s.append(join(self.input.as_slice(), " $").as_str());
            },
        }
        proof {
            assert(s@ =~= spec_op_text(self.deep_view()));
        }
        s
    }
}

/// How a basic block ends: a jump, a jump on a condition, or a return.
#[derive(Debug, Clone, Copy, PartialEq, Eq, PartialOrd, Ord, Hash)]
pub enum IR3EndOp {
    Br { block: IR3BBID },
    BrIf { block1: IR3BBID, block2: IR3BBID, cond: IR3VarID },
    Ret { ty: IR3Type, var: IR3VarID },
}

/// How the end of a block is written.
pub open spec fn spec_end_op_text(e: IR3EndOp) -> Seq<char> {
    match e {
        IR3EndOp::Br { block } => "br @"@ + spec_decimal(block as nat),
        IR3EndOp::BrIf { block1, block2, cond } => "br_if $"@ + spec_decimal(cond as nat) + " @"@
            + spec_decimal(block1 as nat) + " @"@ + spec_decimal(block2 as nat),
        IR3EndOp::Ret { ty, var } => "ret "@ + spec_ir3_type_text(ty) + " $"@ + spec_decimal(
            var as nat,
        ),
    }
}

impl ToText for IR3EndOp {
    open spec fn text(&self) -> Seq<char> {
        spec_end_op_text(*self)
    }

    fn to_text(&self) -> (s: String) {
        match self {
            IR3EndOp::Br { block } => {
                let mut s = "br @".to_owned();
                s.append(decimal(*block as u64).as_str());
                s
            },
            IR3EndOp::BrIf { block1, block2, cond } => {
                let mut s = "br_if $".to_owned();
                s.append(decimal(*cond as u64).as_str());
                s.append(" @");
                s.append(decimal(*block1 as u64).as_str());
                s.append(" @");
                s.append(decimal(*block2 as u64).as_str());
                s
            },
            IR3EndOp::Ret { ty, var } => {
                let mut s = "ret ".to_owned();
                s.append(ty.to_text().as_str());
                s.append(" $");
                s.append(decimal(*var as u64).as_str());
                s
            },
        }
    }
}

/// A basic block: its number, its operations in order, and how it ends.
#[derive(Debug, Clone, PartialEq, Eq, PartialOrd, Ord, Hash)]
pub struct IR3BasicBlock {
    pub id: IR3BBID,
    pub instructions: Vec<IR3Op>,
    pub ending: IR3EndOp,
}

/// What an `IR3BasicBlock` holds.
pub struct IR3BasicBlockView {
    pub id: IR3BBID,
    pub instructions: Seq<IR3OpView>,
    pub ending: IR3EndOp,
}

impl DeepView for IR3BasicBlock {
    type V = IR3BasicBlockView;

    open spec fn deep_view(&self) -> IR3BasicBlockView {
        IR3BasicBlockView {
            id: self.id,
            instructions: self.instructions.deep_view(),
            ending: self.ending,
        }
    }
}

/// How each operation of a list is written.
pub open spec fn spec_op_texts(ops: Seq<IR3OpView>) -> Seq<Seq<char>> {
    Seq::new(ops.len(), |i: int| spec_op_text(ops[i]))
}

/// How a basic block is written: `@` and its number with a colon, then its
/// operations and its end, each on a line of its own behind two spaces.
pub open spec fn spec_basic_block_text(b: IR3BasicBlockView) -> Seq<char> {
    "@"@ + spec_decimal(b.id as nat) + ":\n  "@ + spec_join(
        spec_op_texts(b.instructions),
        "\n  "@,
    ) + "\n  "@ + spec_end_op_text(b.ending) + "\n"@
}

impl ToText for IR3BasicBlock {
    open spec fn text(&self) -> Seq<char> {
        spec_basic_block_text(self.deep_view())
    }

    fn to_text(&self) -> (s: String) {
        proof {
            assert(spec_texts(self.instructions@) =~= spec_op_texts(
                self.instructions.deep_view(),
            ));
        }
        let mut s = "@".to_owned();
        s.append(decimal(self.id as u64).as_str());
        s.append(":\n  ");
        s.append(join(self.instructions.as_slice(), "\n  ").as_str());
        s.append("\n  ");
        s.append(self.ending.to_text().as_str());
        s.append("\n");
        s
    }
}

/// A function: its name, the types of its arguments, the type it returns,
/// its basic blocks, and its tags with their values.
#[derive(Debug, Clone, PartialEq, Eq, PartialOrd, Ord, Hash)]
pub struct IR3Function {
    pub name: String,
    pub args: Vec<IR3Type>,
    pub ret: IR3Type,
    pub basic_blocks: Vec<IR3BasicBlock>,
    pub attrs: Vec<(IR3FunctionAttr, String)>,
}

/// What an `IR3Function` holds.
pub struct IR3FunctionView {
    pub name: Seq<char>,
    pub args: Seq<IR3Type>,
    pub ret: IR3Type,
    pub basic_blocks: Seq<IR3BasicBlockView>,
    pub attrs: Seq<(IR3FunctionAttr, Seq<char>)>,
}

impl DeepView for IR3FunctionAttr {
    type V = IR3FunctionAttr;

    open spec fn deep_view(&self) -> IR3FunctionAttr {
        *self
    }
}

impl DeepView for IR3Function {
    type V = IR3FunctionView;

    open spec fn deep_view(&self) -> IR3FunctionView {
        IR3FunctionView {
            name: self.name@,
            args: self.args@,
            ret: self.ret,
            basic_blocks: self.basic_blocks.deep_view(),
            attrs: self.attrs.deep_view(),
        }
    }
}

/// `tag=value` for each tag of a list.
pub open spec fn spec_attr_texts(attrs: Seq<(IR3FunctionAttr, Seq<char>)>) -> Seq<Seq<char>> {
    Seq::new(attrs.len(), |i: int| spec_function_attr_name(attrs[i].0) + "="@ + attrs[i].1)
}

/// How each basic block of a list is written.
pub open spec fn spec_block_texts(blocks: Seq<IR3BasicBlockView>) -> Seq<Seq<char>> {
    Seq::new(blocks.len(), |i: int| spec_basic_block_text(blocks[i]))
}

/// The tags of a function behind ` attrs `; nothing where it has none.
pub open spec fn spec_attrs_part(attrs: Seq<(IR3FunctionAttr, Seq<char>)>) -> Seq<char> {
    if attrs.len() > 0 {
        " attrs "@ + spec_join(spec_attr_texts(attrs), " "@)
    } else {
        Seq::empty()
    }
}

/// The types of the arguments of a function behind ` args `; nothing where
/// it has none.
pub open spec fn spec_args_part(args: Seq<IR3Type>) -> Seq<char> {
    if args.len() > 0 {
        " args "@ + spec_join(spec_type_texts(args), " "@)
    } else {
        Seq::empty()
    }
}

/// How a function is written: `ir3function` and its name, its tags, the
/// types of its arguments, the type it returns behind `returns`, and its
/// blocks between braces.
pub open spec fn spec_function_text(f: IR3FunctionView) -> Seq<char> {
    "ir3function "@ + f.name + spec_attrs_part(f.attrs) + spec_args_part(f.args) + " returns "@
        + spec_ir3_type_text(f.ret) + " {\n"@ + spec_join(spec_block_texts(f.basic_blocks), "\n"@)
        + "\n}"@
}

impl IR3Function {
    fn attrs_part(&self) -> (s: String)
        ensures
            s@ == spec_attrs_part(self.attrs.deep_view()),
    {
        let mut s = String::new();
        if self.attrs.len() > 0 {
            let mut parts: Vec<String> = Vec::new();
            let mut i: usize = 0;
            while i < self.attrs.len()
                invariant
                    i <= self.attrs.len(),
                    parts.len() == i,
                    forall|k: int|
                        0 <= k < i ==> (#[trigger] parts[k])@ == spec_function_attr_name(
                            self.attrs[k].0,
                        ) + "="@ + self.attrs[k].1@,
                decreases self.attrs.len() - i,
            {
                let mut part = self.attrs[i].0.name().to_owned();
                part.append("=");
                part.append(self.attrs[i].1.as_str());
                parts.push(part);
                i += 1;
            }
            assert(parts.deep_view() =~= spec_attr_texts(self.attrs.deep_view()));
            s.append(" attrs ");
            s.append(join_strings(&parts, " ").as_str());
        }
        assert(s@ =~= spec_attrs_part(self.attrs.deep_view()));
        s
    }

    fn args_part(&self) -> (s: String)
        ensures
            s@ == spec_args_part(self.args@),
    {
        let mut s = String::new();
        if self.args.len() > 0 {
            proof {
                assert(spec_texts(self.args@) =~= spec_type_texts(self.args@));
            }
            s.append(" args ");
            s.append(join(self.args.as_slice(), " ").as_str());
        }
        assert(s@ =~= spec_args_part(self.args@));
        s
    }

    fn blocks_part(&self) -> (s: String)
        ensures
            s@ == spec_join(spec_block_texts(self.basic_blocks.deep_view()), "\n"@),
    {
        proof {
            assert(spec_texts(self.basic_blocks@) =~= spec_block_texts(
                self.basic_blocks.deep_view(),
            ));
        }
        join(self.basic_blocks.as_slice(), "\n")
    }
}

impl ToText for IR3Function {
    open spec fn text(&self) -> Seq<char> {
        spec_function_text(self.deep_view())
    }

    fn to_text(&self) -> (s: String) {
        let mut s = "ir3function ".to_owned();
        s.append(self.name.as_str());
        s.append(self.attrs_part().as_str());
        s.append(self.args_part().as_str());
        s.append(" returns ");
        s.append(self.ret.to_text().as_str());
        s.append(" {\n");
        s.append(self.blocks_part().as_str());
        s.append("\n}");
        s
    }
}

} // verus!

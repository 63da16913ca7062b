//! The names under which functions are known to the linker.

use crate::common::sepvec::spec_texts;
use crate::common::text::spec_join;
use crate::common::util::map_join;
use crate::ir2::model::{spec_type_text, IR2FuncDecl, IR2FuncDeclView, IR2Type, IR2VarDecl};
use vstd::prelude::*;

verus! {

/// How the types of the parameters are written, in order.
pub open spec fn spec_param_type_texts(d: IR2FuncDeclView) -> Seq<Seq<char>> {
    Seq::new(d.params.len(), |i: int| spec_type_text(d.params[i].ty))
}

/// The linker name of a function: `_HX$`, its name, `$`, and the types of
/// its parameters with `$` between them.
pub open spec fn spec_mangle_function(d: IR2FuncDeclView) -> Seq<char> {
    "_HX$"@ + d.name + "$"@ + spec_join(spec_param_type_texts(d), "$"@)
}

/// The type of a parameter.
pub fn param_type(v: &IR2VarDecl) -> (t: &IR2Type)
    ensures
        *t == v.ty,
{
    &v.ty
}

/// The linker name of the function that `decl` declares.
pub fn mangle_function(decl: &IR2FuncDecl) -> (r: String)
    ensures
        r@ == spec_mangle_function(decl.deep_view()),
{
    let types = map_join(decl.params.as_slice(), param_type, "$");
    proof {
        let picks = choose|picks: Seq<IR2Type>|
            {
                &&& picks.len() == decl.params@.len()
                &&& forall|i: int|
                    0 <= i < decl.params@.len() ==> *(&#[trigger] picks[i]) == decl.params@[i].ty
                &&& types@ == spec_join(spec_texts(picks), "$"@)
            };
        assert(spec_texts(picks) =~= spec_param_type_texts(decl.deep_view()));
    }
    let mut s = "_HX$".to_owned();
    s.append(decl.name.as_str());
    s.append("$");
    s.append(types.as_str());
    s
}

} // verus!

//! Evaluating a role's privilege matrix.
//!
//! The matrix is a list of rows, one level per module.  The first row for a
//! module is the one that counts; a module without a row grants nothing.

use crate::model::{Module, PrivilegeType, Role, RolePrivilege};
use vstd::prelude::*;

verus! {

/// Row `i` is the first row of `rows` for `module`.
pub open spec fn is_first_row(rows: Seq<RolePrivilege>, module: Module, i: int) -> bool {
    &&& 0 <= i < rows.len()
    &&& rows[i].module == module
    &&& forall|j: int| 0 <= j < i ==> (#[trigger] rows[j]).module != module
}

/// No row of `rows` is for `module`.
pub open spec fn unassigned(rows: Seq<RolePrivilege>, module: Module) -> bool {
    forall|j: int| 0 <= j < rows.len() ==> (#[trigger] rows[j]).module != module
}

/// `rows` grant `requested` on `module`: the first row for the module holds a
/// level at least as high as the one requested.
pub open spec fn granted(
    rows: Seq<RolePrivilege>,
    module: Module,
    requested: PrivilegeType,
) -> bool {
    exists|i: int|
        is_first_row(rows, module, i) && (#[trigger] rows[i]).privilege_type.covers(requested)
}

/// `role` grants `requested` on `module` to a session under the role
/// `role_id`: the role was found, it is the session's role, its rows were
/// loaded, and they grant the request.
pub open spec fn role_grants(
    role_id: i32,
    role: Option<Role>,
    module: Module,
    requested: PrivilegeType,
) -> bool {
    &&& role matches Some(found)
    &&& found.id == role_id
    &&& found.role_privileges matches Some(rows)
    &&& granted(rows@, module, requested)
}

/// Decides `granted` by one pass over the rows.
pub fn rows_grant(rows: &Vec<RolePrivilege>, module: Module, requested: PrivilegeType) -> (r: bool)
    ensures
        r == granted(rows@, module, requested),
{
    let mut i: usize = 0;
    while i < rows.len()
        invariant
            i <= rows.len(),
            forall|j: int| 0 <= j < i ==> (#[trigger] rows@[j]).module != module,
        decreases rows.len() - i,
    {
        if rows[i].module == module {
            let held = rows[i].privilege_type;
            proof {
                lemma_first_row_decides(rows@, module, requested, i as int);
            }
            return held.is_at_least(&requested);
        }
        i += 1;
    }
    proof {
        lemma_unassigned_denied(rows@, module, requested);
    }
    false
}

/// Where row `i` is the first for the module, it alone decides.
pub proof fn lemma_first_row_decides(
    rows: Seq<RolePrivilege>,
    module: Module,
    requested: PrivilegeType,
    i: int,
)
    requires
        is_first_row(rows, module, i),
    ensures
        granted(rows, module, requested) == rows[i].privilege_type.covers(requested),
{
    if granted(rows, module, requested) {
        // Two first rows for one module are one row.
        let k = choose|k: int|
            is_first_row(rows, module, k) && (#[trigger] rows[k]).privilege_type.covers(requested);
        assert(k == i);
    }
}

/// A module without a row is denied at every level, the lowest included.
pub proof fn lemma_unassigned_denied(
    rows: Seq<RolePrivilege>,
    module: Module,
    requested: PrivilegeType,
)
    requires
        unassigned(rows, module),
    ensures
        !granted(rows, module, requested),
{
    if granted(rows, module, requested) {
        let k = choose|k: int|
            is_first_row(rows, module, k) && (#[trigger] rows[k]).privilege_type.covers(requested);
        assert(rows[k].module == module);
    }
}

/// A first row at `Edit` grants both `View` and `Edit`.
pub proof fn lemma_edit_grants_view_and_edit(rows: Seq<RolePrivilege>, module: Module, i: int)
    requires
        is_first_row(rows, module, i),
        rows[i].privilege_type == PrivilegeType::Edit,
    ensures
        granted(rows, module, PrivilegeType::View),
        granted(rows, module, PrivilegeType::Edit),
{
    lemma_first_row_decides(rows, module, PrivilegeType::View, i);
    lemma_first_row_decides(rows, module, PrivilegeType::Edit, i);
}

/// A first row at `View` grants `View` and denies `Edit`.
pub proof fn lemma_view_grants_view_only(rows: Seq<RolePrivilege>, module: Module, i: int)
    requires
        is_first_row(rows, module, i),
        rows[i].privilege_type == PrivilegeType::View,
    ensures
        granted(rows, module, PrivilegeType::View),
        !granted(rows, module, PrivilegeType::Edit),
{
    lemma_first_row_decides(rows, module, PrivilegeType::View, i);
    lemma_first_row_decides(rows, module, PrivilegeType::Edit, i);
}

/// What is granted at one level is granted at every lower level.
pub proof fn lemma_granted_downwards(
    rows: Seq<RolePrivilege>,
    module: Module,
    higher: PrivilegeType,
    lower: PrivilegeType,
)
    requires
        granted(rows, module, higher),
        higher.covers(lower),
    ensures
        granted(rows, module, lower),
{
    let k = choose|k: int|
        is_first_row(rows, module, k) && (#[trigger] rows[k]).privilege_type.covers(higher);
    lemma_first_row_decides(rows, module, lower, k);
}

/// Rows for other modules change nothing: a grant on `module` depends on the
/// rows for `module` alone.
pub proof fn lemma_other_modules_ignored(
    rows: Seq<RolePrivilege>,
    extra: RolePrivilege,
    module: Module,
    requested: PrivilegeType,
)
    requires
        extra.module != module,
    ensures
        granted(seq![extra] + rows, module, requested) == granted(rows, module, requested),
{
    let longer = seq![extra] + rows;
    if granted(rows, module, requested) {
        let k = choose|k: int|
            is_first_row(rows, module, k) && (#[trigger] rows[k]).privilege_type.covers(requested);
        assert forall|j: int| 0 <= j < k + 1 implies (#[trigger] longer[j]).module != module by {
            if j > 0 {
                assert(longer[j] == rows[j - 1]);
            }
        }
        assert(is_first_row(longer, module, k + 1));
    }
    if granted(longer, module, requested) {
        let k = choose|k: int|
            is_first_row(longer, module, k) && (#[trigger] longer[k]).privilege_type.covers(
                requested,
            );
        assert forall|j: int| 0 <= j < k - 1 implies (#[trigger] rows[j]).module != module by {
            assert(longer[j + 1] == rows[j]);
        }
        assert(is_first_row(rows, module, k - 1));
    }
}

} // verus!

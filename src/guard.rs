use vstd::prelude::*;

verus! {

/// A role of a guild.
pub struct RoleRecord {
    pub id: u64,
    pub name: String,
}

/// A permission overwrite on a channel for one role, about view access only.
#[derive(Debug, Clone, Copy, PartialEq, Eq, Structural)]
pub struct Overwrite {
    pub role_id: u64,
    pub allow_view: bool,
    pub deny_view: bool,
}

pub open spec fn hide_overwrite(role: u64) -> Overwrite {
    Overwrite { role_id: role, allow_view: false, deny_view: true }
}

pub open spec fn reveal_overwrite(role: u64) -> Overwrite {
    Overwrite { role_id: role, allow_view: true, deny_view: false }
}

/// The overwrite that hides the destination from `role` during a relocation.
pub fn hide_for(role: u64) -> (r: Overwrite)
    ensures
        r == hide_overwrite(role),
{
    Overwrite { role_id: role, allow_view: false, deny_view: true }
}

/// The overwrite that shows the destination to `role` again.
pub fn reveal_for(role: u64) -> (r: Overwrite)
    ensures
        r == reveal_overwrite(role),
{
    Overwrite { role_id: role, allow_view: true, deny_view: false }
}

pub open spec fn hide_role_name() -> Seq<char> {
    "Hide"@
}

/// The first role named exactly `Hide`, if any: the role a destination is hidden from.
pub fn find_hide_role(roles: &Vec<RoleRecord>) -> (r: Option<u64>)
    ensures
        match r {
            Some(id) => exists|i: int| 0 <= i < roles@.len() && (#[trigger] roles@[i]).id == id
                && roles@[i].name@ == hide_role_name()
                && forall|j: int| 0 <= j < i ==> (#[trigger] roles@[j]).name@ != hide_role_name(),
            None => forall|j: int| 0 <= j < roles@.len() ==> (#[trigger] roles@[j]).name@ != hide_role_name(),
        },
{
    let hide = String::from_str("Hide");
    let mut i: usize = 0;
    while i < roles.len()
        invariant
            0 <= i <= roles@.len(),
            hide@ == hide_role_name(),
            forall|j: int| 0 <= j < i ==> (#[trigger] roles@[j]).name@ != hide_role_name(),
        decreases roles@.len() - i,
    {
        if roles[i].name == hide {
            return Some(roles[i].id);
        }
        i = i + 1;
    }
    None
}

} // verus!

//! Size of the compute dispatch that animates every blade.
use vstd::prelude::*;

verus! {

/// `ceil(count / group_size)`.
pub open spec fn workgroups_spec(count: nat, group_size: nat) -> nat
    recommends
        group_size > 0,
{
    ((count + group_size - 1) / group_size as int) as nat
}

/// Number of workgroups of `group_size` invocations needed to cover
/// `instance_count` instances, rounding up. The invocations past the last
/// instance are left to the compute program's own bounds check.
pub fn workgroup_count(instance_count: u32, group_size: u32) -> (r: u32)
    requires
        group_size > 0,
    ensures
        r == workgroups_spec(instance_count as nat, group_size as nat),
        instance_count <= r * group_size < instance_count + group_size,
{
    let full = instance_count / group_size;
    let r: u32 = if instance_count % group_size == 0 {
        full
    } else {
        assert(group_size >= 2);
        assert(full < u32::MAX) by (nonlinear_arith)
            requires
                full == instance_count / group_size,
                group_size >= 2,
                instance_count <= u32::MAX,
        ;
        full + 1
    };
    proof {
        let c = instance_count as int;
        let g = group_size as int;
        assert(c == g * (c / g) + c % g) by (nonlinear_arith)
            requires
                g > 0,
        ;
        assert((c + g - 1) / g == if c % g == 0 {
            c / g
        } else {
            c / g + 1
        }) by (nonlinear_arith)
            requires
                g > 0,
                c >= 0,
                c == g * (c / g) + c % g,
                0 <= c % g < g,
        ;
        assert(r as int * g == g * (c / g) + if c % g == 0 {
            0
        } else {
            g
        }) by (nonlinear_arith)
            requires
                r as int == (if c % g == 0 {
                    c / g
                } else {
                    c / g + 1
                }),
        ;
    }
    r
}

} // verus!

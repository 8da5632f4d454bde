//! Workgroup counts for a kernel launch.

use crate::client::Handle;
use vstd::prelude::*;

verus! {

/// The number of workgroups a launch spans along each of the three axes.
#[derive(Clone, Copy, Debug, PartialEq, Eq, Structural)]
pub enum CubeCount {
    /// Counts known to the host when the launch is submitted.
    Static(u32, u32, u32),
    /// Counts that a buffer on the device holds as three 32-bit words.
    Dynamic(Handle),
}

/// The number of threads in a workgroup along each of the three axes.
#[derive(Clone, Copy, Debug, PartialEq, Eq, Structural)]
pub struct CubeDim {
    pub x: u32,
    pub y: u32,
    pub z: u32,
}

/// `total` divided by `group`, rounded up.
pub open spec fn ceil_div(total: int, group: int) -> int {
    (total + group - 1) / group
}

/// The workgroups launched along one axis: enough to cover `total` work
/// items with groups of `group`, and never fewer than one.
pub open spec fn group_count(total: int, group: int) -> int {
    if ceil_div(total, group) < 1 {
        1
    } else {
        ceil_div(total, group)
    }
}

/// The work size along `axis`; an axis beyond the rank of `sizes` has size one.
pub open spec fn size_along(sizes: Seq<u32>, axis: int) -> int {
    if 0 <= axis < sizes.len() {
        sizes[axis] as int
    } else {
        1
    }
}

/// The rounded-up quotient is the least number of groups that covers the work.
pub proof fn lemma_ceil_div_is_least_cover(total: int, group: int)
    requires
        total >= 0,
        group > 0,
    ensures
        ceil_div(total, group) * group >= total,
        (ceil_div(total, group) - 1) * group < total,
        total > 0 ==> ceil_div(total, group) >= 1,
        total == 0 ==> ceil_div(total, group) == 0,
{
    let q: int = ceil_div(total, group);
    let n: int = total + group - 1;
    assert(n == group * (n / group) + n % group && 0 <= n % group < group) by (nonlinear_arith)
        requires
            group > 0,
    ;
    assert(q * group == group * q) by (nonlinear_arith);
    assert((q - 1) * group == group * q - group) by (nonlinear_arith);
    if total > 0 {
        assert(q >= 1) by (nonlinear_arith)
            requires
                n == group * q + n % group,
                0 <= n % group < group,
                n >= group,
                group > 0,
        ;
    }
}

/// A launch always has at least one workgroup along an axis, and its groups
/// cover the work of that axis.
pub proof fn lemma_group_count_covers(total: int, group: int)
    requires
        total >= 0,
        group > 0,
    ensures
        group_count(total, group) >= 1,
        group_count(total, group) * group >= total,
        total > 0 ==> (group_count(total, group) - 1) * group < total,
        total == 0 ==> group_count(total, group) == 1,
{
    lemma_ceil_div_is_least_cover(total, group);
    if ceil_div(total, group) < 1 {
        assert(1 * group >= total) by (nonlinear_arith)
            requires
                total == 0,
                group > 0,
        ;
    }
}

fn div_ceil(total: u32, group: u32) -> (quotient: u32)
    requires
        group > 0,
    ensures
        quotient == ceil_div(total as int, group as int),
{
    let whole: u32 = total / group;
    let rest: u32 = total % group;
    proof {
        let t: int = total as int;
        let g: int = group as int;
        if t % g == 0 {
            assert((t + g - 1) / g == t / g) by (nonlinear_arith)
                requires
                    g > 0,
                    t == g * (t / g),
            ;
        } else {
            assert((t + g - 1) / g == t / g + 1) by (nonlinear_arith)
                requires
                    g > 0,
                    t == g * (t / g) + t % g,
                    0 < t % g < g,
            ;
            assert(t / g < t) by (nonlinear_arith)
                requires
                    g > 0,
                    t == g * (t / g) + t % g,
                    0 < t % g < g,
                    t >= 0,
            ;
        }
    }
    if rest == 0 {
        whole
    } else {
        whole + 1
    }
}

fn axis_groups(total: u32, group: u32) -> (count: u32)
    requires
        group > 0,
    ensures
        count == group_count(total as int, group as int),
{
    let quotient: u32 = div_ceil(total, group);
    if quotient < 1 {
        1
    } else {
        quotient
    }
}

/// Sizes a launch whose work sizes the host knows.
///
/// Each axis gets the work size divided by the workgroup size, rounded up,
/// and at least one workgroup. Axes beyond the rank of `sizes` have work
/// size one; entries of `sizes` beyond the third are not looked at.
pub fn calc_cube_count<const D: usize>(sizes: [u32; D], workgroup_size: [u32; 3]) -> (count:
    CubeCount)
    requires
        workgroup_size[0] > 0,
        workgroup_size[1] > 0,
        workgroup_size[2] > 0,
    ensures
        count is Static,
        count matches CubeCount::Static(x, y, z) ==> {
            &&& x == group_count(size_along(sizes@, 0), workgroup_size[0] as int)
            &&& y == group_count(size_along(sizes@, 1), workgroup_size[1] as int)
            &&& z == group_count(size_along(sizes@, 2), workgroup_size[2] as int)
        },
{
    let total_x: u32 = if D > 0 {
        sizes[0]
    } else {
        1
    };
    let total_y: u32 = if D > 1 {
        sizes[1]
    } else {
        1
    };
    let total_z: u32 = if D > 2 {
        sizes[2]
    } else {
        1
    };
    CubeCount::Static(
        axis_groups(total_x, workgroup_size[0]),
        axis_groups(total_y, workgroup_size[1]),
        axis_groups(total_z, workgroup_size[2]),
    )
}

} // verus!

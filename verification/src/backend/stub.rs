//! The backend of platforms without operating system confinement.
//!
//! It enforces nothing at the operating system layer and says so: every axis
//! that the policy asks for is reported lost.
use vstd::prelude::*;

use crate::backend::{names_axis, Degradation, FS_AXIS, NET_AXIS};
use crate::policy::SandboxPolicy;

verus! {

/// Why the axes are lost here.
pub const NOT_IMPLEMENTED: &'static str =
    "OS write/net sandbox not yet implemented on this platform (env-scrub only)";

/// Names of the axes of `policy` that are lost, in the order of the report.
pub open spec fn lost_axes(policy: SandboxPolicy) -> Seq<Seq<char>> {
    let fs = if policy.confines_fs() {
        seq![FS_AXIS@]
    } else {
        Seq::empty()
    };
    if policy.confines_net() {
        fs.push(NET_AXIS@)
    } else {
        fs
    }
}

/// Whether `d` is the report on `policy`.
pub open spec fn reports(d: Degradation, policy: SandboxPolicy) -> bool {
    &&& d.lost@.len() == lost_axes(policy).len()
    &&& forall|i: int| 0 <= i < d.lost@.len() ==> #[trigger] d.lost@[i]@ == lost_axes(policy)[i]
    &&& d.reason matches Some(why)
    &&& why@ == NOT_IMPLEMENTED@
}

/// Reports as lost each axis that `policy` asks for.
pub fn apply(policy: &SandboxPolicy) -> (res: Degradation)
    ensures
        reports(res, *policy),
        forall|i: int|
            0 <= i < res.lost@.len() ==> (#[trigger] res.lost@[i])@ == "fs"@ || res.lost@[i]@
                == "net"@,
        forall|i: int, j: int|
            0 <= i < j < res.lost@.len() ==> (#[trigger] res.lost@[i])@ != (
            #[trigger] res.lost@[j])@,
        names_axis(res.lost@, "fs"@) <==> policy.fs.write_enforce || policy.fs.read_enforce,
        names_axis(res.lost@, "net"@) <==> policy.net.enforce,
{
    let mut lost: Vec<String> = Vec::new();
    if policy.fs.write_enforce || policy.fs.read_enforce {
        lost.push(FS_AXIS.to_owned());
    }
    if policy.net.enforce {
        lost.push(NET_AXIS.to_owned());
    }
    let res = Degradation { lost, reason: Some(NOT_IMPLEMENTED.to_owned()) };
    proof {
        law_report_holds_nothing_else(res, *policy);
    }
    res
}

/// The report holds the names of axes and nothing else, none of them twice, and one
/// for each axis that the policy asks for.
pub proof fn law_report_holds_nothing_else(d: Degradation, policy: SandboxPolicy)
    requires
        reports(d, policy),
    ensures
        forall|i: int|
            0 <= i < d.lost@.len() ==> (#[trigger] d.lost@[i])@ == "fs"@ || d.lost@[i]@ == "net"@,
        forall|i: int, j: int|
            0 <= i < j < d.lost@.len() ==> (#[trigger] d.lost@[i])@ != (#[trigger] d.lost@[j])@,
        names_axis(d.lost@, "fs"@) <==> policy.fs.write_enforce || policy.fs.read_enforce,
        names_axis(d.lost@, "net"@) <==> policy.net.enforce,
        d.lost@.len() == axis(policy.fs.write_enforce || policy.fs.read_enforce) + axis(
            policy.net.enforce,
        ),
        d.reason matches Some(why) && why@
            == "OS write/net sandbox not yet implemented on this platform (env-scrub only)"@,
{
    law_report_is_honest(d, policy);
    reveal_strlit("fs");
    reveal_strlit("net");
    assert("fs"@.len() == 2 && "net"@.len() == 3);
    if d.lost@.len() == 2 {
        assert(d.lost@[0]@ == "fs"@);
        assert(d.lost@[1]@ == "net"@);
    }
}

/// How many axes there are of one that is asked for or not.
pub open spec fn axis(asked_for: bool) -> nat {
    if asked_for {
        1
    } else {
        0
    }
}

/// A policy that asks for more loses no fewer axes: what is lost under the weaker
/// policy is lost under the stronger one.
pub proof fn law_report_grows_with_the_policy(
    weaker: SandboxPolicy,
    stronger: SandboxPolicy,
    d: Degradation,
    e: Degradation,
)
    requires
        reports(d, weaker),
        reports(e, stronger),
        weaker.fs.write_enforce ==> stronger.fs.write_enforce,
        weaker.fs.read_enforce ==> stronger.fs.read_enforce,
        weaker.net.enforce ==> stronger.net.enforce,
    ensures
        d.lost@.len() <= e.lost@.len(),
        forall|i: int|
            0 <= i < d.lost@.len() ==> names_axis(e.lost@, (#[trigger] d.lost@[i])@),
{
    law_report_holds_nothing_else(d, weaker);
    law_report_holds_nothing_else(e, stronger);
    assert forall|i: int| 0 <= i < d.lost@.len() implies names_axis(
        e.lost@,
        (#[trigger] d.lost@[i])@,
    ) by {
        assert(names_axis(d.lost@, d.lost@[i]@));
    }
}

/// The report reads as full enforcement only where the policy asks for none,
/// and it names each axis that the policy asks for and no other.
pub proof fn law_report_is_honest(d: Degradation, policy: SandboxPolicy)
    requires
        reports(d, policy),
    ensures
        d.lost@.len() == 0 <==> !policy.confines_fs() && !policy.confines_net(),
        names_axis(d.lost@, FS_AXIS@) <==> policy.confines_fs(),
        names_axis(d.lost@, NET_AXIS@) <==> policy.confines_net(),
{
    reveal_strlit("fs");
    reveal_strlit("net");
    assert(FS_AXIS@.len() == 2 && NET_AXIS@.len() == 3);
    if policy.confines_fs() {
        assert(d.lost@[0]@ == FS_AXIS@);
        if policy.confines_net() {
            assert(d.lost@[1]@ == NET_AXIS@);
        }
    } else if policy.confines_net() {
        assert(d.lost@[0]@ == NET_AXIS@);
    }
}

} // verus!

//! Operating system backends of the sandbox, and the report of what they lost.
//!
//! The contract is fail-safe with degradation, not fail-open: a backend whose
//! primitives are missing lets the child run, but its [`Degradation`] names
//! every axis that is not enforced, so that the caller can print one line of
//! warning. No axis is lost silently.
use vstd::prelude::*;

use crate::policy::SandboxPolicy;
use crate::text::{contains, join, joined, lemma_contains_in_larger, lemma_joined_contains_each,
    lemma_middle_is_contained};

pub mod stub;

verus! {

/// Name of the filesystem axis.
pub const FS_AXIS: &'static str = "fs";

/// Name of the network axis.
pub const NET_AXIS: &'static str = "net";

/// What stands between two axes in a warning.
pub const AXIS_SEPARATOR: &'static str = ", ";

/// How a warning starts, up to the list of lost axes.
pub const WARNING_HEAD: &'static str = "build sandbox running in reduced mode — ";

/// What follows the list of lost axes in a warning.
pub const WARNING_TAIL: &'static str = " not enforced";

/// Why no axis is enforced on a Unix that has no backend.
pub const NO_UNIX_BACKEND: &'static str = "no unprivileged sandbox backend for this OS";

/// Which confinement axes a backend could not enforce on this host.
#[derive(Debug, Clone)]
pub struct Degradation {
    /// Names of the axes that are not enforced; empty means full enforcement.
    pub lost: Vec<String>,
    /// One line that says why, shown with the lost axes.
    pub reason: Option<String>,
}

/// The text of a warning for the lost axes and the reason.
pub open spec fn warning_text(lost: Seq<String>, reason: Option<String>) -> Seq<char> {
    let sentence = WARNING_HEAD@ + joined(lost, AXIS_SEPARATOR@) + WARNING_TAIL@;
    match reason {
        Some(why) => sentence + " ("@ + why@ + ")"@,
        None => sentence,
    }
}

/// Whether an axis of that name is among those lost.
pub open spec fn names_axis(lost: Seq<String>, axis: Seq<char>) -> bool {
    exists|i: int| 0 <= i < lost.len() && #[trigger] lost[i]@ == axis
}

impl Default for Degradation {
    fn default() -> (res: Self)
        ensures
            res.lost@.len() == 0,
            res.reason is None,
    {
        Degradation { lost: Vec::new(), reason: None }
    }
}

impl Degradation {
    /// Every axis enforced.
    pub fn full() -> (res: Self)
        ensures
            res.lost@.len() == 0,
            res.reason is None,
    {
        Self::default()
    }

    /// Whether every axis is enforced.
    pub fn is_full(&self) -> (res: bool)
        ensures
            res == (self.lost@.len() == 0),
    {
        self.lost.len() == 0
    }

    /// The one-line warning, or `None` when every axis is enforced.
    pub fn warning(&self) -> (res: Option<String>)
        ensures
            res is None <==> self.lost@.len() == 0,
            res matches Some(text) ==> text@ == warning_text(self.lost@, self.reason),
    {
        if self.lost.len() == 0 {
            return None;
        }
        let axes = join(&self.lost, AXIS_SEPARATOR);
        let mut text = WARNING_HEAD.to_owned();
        text.append(axes.as_str());
        text.append(WARNING_TAIL);
        match &self.reason {
            Some(why) => {
                text.append(" (");
                text.append(why.as_str());
                text.append(")");
            },
            None => {},
        }
        Some(text)
    }
}

/// The operating system that a child process is spawned on.
#[derive(Debug, Clone, Copy, PartialEq, Eq, Structural)]
pub enum Platform {
    MacOs,
    Linux,
    /// A Unix other than macOS and Linux.
    OtherUnix,
    /// Windows, and whatever else is not a Unix.
    NonUnix,
}

/// Who enforces a policy on a platform.
#[derive(Debug)]
pub enum Applied {
    /// The Seatbelt backend is to be applied to the command.
    Seatbelt,
    /// The Landlock and seccomp backend is to be applied to the command.
    Landlock,
    /// No backend touches the command; this is what is lost by that.
    Unenforced(Degradation),
}

/// Chooses the backend of `platform` for `policy`; where there is none, says
/// what is lost. A policy that confines anything never reads as fully enforced
/// there.
pub fn apply(platform: Platform, policy: &SandboxPolicy) -> (res: Applied)
    ensures
        platform == Platform::MacOs <==> res is Seatbelt,
        platform == Platform::Linux <==> res is Landlock,
        platform == Platform::OtherUnix ==> (res matches Applied::Unenforced(d) && {
            &&& d.lost@.len() == 2
            &&& d.lost@[0]@ == FS_AXIS@
            &&& d.lost@[1]@ == NET_AXIS@
            &&& d.reason matches Some(why)
            &&& why@ == NO_UNIX_BACKEND@
        }),
        platform == Platform::NonUnix ==> (res matches Applied::Unenforced(d)
            && stub::reports(d, *policy)),
        policy.confines_fs() || policy.confines_net() ==> (res matches Applied::Unenforced(d)
            ==> d.lost@.len() > 0),
{
    match platform {
        Platform::MacOs => Applied::Seatbelt,
        Platform::Linux => Applied::Landlock,
        Platform::OtherUnix => Applied::Unenforced(
            Degradation {
                lost: vec![FS_AXIS.to_owned(), NET_AXIS.to_owned()],
                reason: Some(NO_UNIX_BACKEND.to_owned()),
            },
        ),
        Platform::NonUnix => {
            let report = stub::apply(policy);
            proof {
                stub::law_report_is_honest(report, *policy);
            }
            Applied::Unenforced(report)
        },
    }
}

/// Whether `warned` is a warning for the lost axes `lost` and no reason.
pub open spec fn warns_of(warned: Seq<char>, lost: Seq<String>) -> bool {
    warned == warning_text(lost, None)
}

/// How a warning reads: of one axis, of one axis more, and with a reason.
pub proof fn law_warning_reads(lost: Seq<String>, axis: String, why: String)
    ensures
        warning_text(seq![axis], None) == "build sandbox running in reduced mode — "@ + axis@
            + " not enforced"@,
        lost.len() > 0 ==> exists|front: Seq<char>|
            warns_of(front + " not enforced"@, lost) && #[trigger] warns_of(
                front + ", "@ + axis@ + " not enforced"@,
                lost.push(axis),
            ),
        warning_text(lost, Some(why)) == warning_text(lost, None) + " ("@ + why@ + ")"@,
{
    assert(lost.push(axis).drop_last() =~= lost);
    if lost.len() > 0 {
        let front = WARNING_HEAD@ + joined(lost, AXIS_SEPARATOR@);
        assert(front + AXIS_SEPARATOR@ + axis@ =~= WARNING_HEAD@ + joined(
            lost.push(axis),
            AXIS_SEPARATOR@,
        ));
        assert(warns_of(front + " not enforced"@, lost));
        assert(warns_of(front + ", "@ + axis@ + " not enforced"@, lost.push(axis)));
    }
}

/// A warning names every lost axis and carries the reason.
pub proof fn law_warning_names_every_lost_axis(d: Degradation)
    requires
        d.lost@.len() > 0,
    ensures
        contains(warning_text(d.lost@, d.reason), WARNING_HEAD@),
        forall|i: int|
            0 <= i < d.lost@.len() ==> contains(
                warning_text(d.lost@, d.reason),
                #[trigger] d.lost@[i]@,
            ),
        d.reason matches Some(why) ==> contains(warning_text(d.lost@, d.reason), why@),
{
    let axes = joined(d.lost@, AXIS_SEPARATOR@);
    let none = Seq::<char>::empty();
    let text = warning_text(d.lost@, d.reason);
    let tail = match d.reason {
        Some(why) => WARNING_TAIL@ + " ("@ + why@ + ")"@,
        None => WARNING_TAIL@,
    };
    assert(text =~= WARNING_HEAD@ + axes + tail);
    lemma_middle_is_contained(none, WARNING_HEAD@, axes + tail);
    assert(none + WARNING_HEAD@ + (axes + tail) =~= text);
    assert forall|i: int| 0 <= i < d.lost@.len() implies contains(text, #[trigger] d.lost@[i]@) by {
        lemma_joined_contains_each(d.lost@, AXIS_SEPARATOR@, i);
        lemma_contains_in_larger(d.lost@[i]@, WARNING_HEAD@, axes, tail);
    }
    if let Some(why) = d.reason {
        let front = WARNING_HEAD@ + axes + WARNING_TAIL@ + " ("@;
        lemma_middle_is_contained(front, why@, ")"@);
        assert(front + why@ + ")"@ =~= text);
    }
}

} // verus!

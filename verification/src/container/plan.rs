//! The run plan: the ordered trace of kernel-facing actions a container
//! run performs. The chain's protocol is linear — after a clone the
//! parent blocks at once in a receive or a wait, so parent-side and
//! child-side actions interleave into one global order — and the
//! ordering obligations of the user-namespace rendezvous are proved
//! over this trace:
//!
//! * every gid-map write is preceded by a `setgroups` deny write;
//! * every uid-map write sits between the child-ready receive and the
//!   release send of its rendezvous;
//! * every clone is followed by a wait on the child.
//!
//! An unverified driver executes the actions in order, aborting at the
//! first failure; the outcome module states what the aborted run
//! returns.
use vstd::prelude::*;

verus! {

use crate::container::context::{context_le, Context};
use crate::container::step::mount_namespace::{MountOperation, MountOperationModel};
use crate::container::step::Step;
use crate::container::id_map_content;
use crate::CLONE_NEWPID;
use crate::CLONE_NEWUSER;

/// One kernel-facing action of a run, as the driver performs it.
/// Actions named `Child…` run in the cloned child; the rest run in the
/// process that reached them.
#[derive(Debug, Clone, PartialEq, Eq)]
pub enum Action {
    /// Create the two rendezvous event channels.
    CreateEventChannels,
    /// Clone a VM-sharing child with the given namespace flags.
    CloneChild { flags: i32 },
    /// Child: post the ready signal on the child-to-parent channel.
    ChildSignalsReady,
    /// Parent: take the ready signal from the child-to-parent channel.
    AwaitChildReady,
    /// Parent: write the child's uid map file in one shot.
    WriteUidMap { content: Vec<u8> },
    /// Parent: write `deny` to the child's `setgroups` file.
    WriteSetgroupsDeny,
    /// Parent: write the child's gid map file in one shot.
    WriteGidMap { content: Vec<u8> },
    /// Parent: post the release signal on the parent-to-child channel.
    ReleaseChild,
    /// Child: take the release signal from the parent-to-child channel.
    ChildAwaitsRelease,
    /// Assume the given effective identity.
    SwitchUser { uid: u32, gid: u32 },
    /// Unshare the mount namespace.
    UnshareMountNamespace,
    /// Apply one mount operation.
    Mount(MountOperation),
    /// Enter the given working directory.
    ChangeDirectory { path: Vec<u8> },
    /// Run the configured command and collect its exit status.
    Execute { program: Vec<u8>, args: Vec<Vec<u8>> },
    /// Parent: wait for the cloned child and reap it.
    AwaitChild,
}

/// The ghost image of an action, with contents as byte sequences.
pub enum ActionModel {
    CreateEventChannels,
    CloneChild { flags: i32 },
    ChildSignalsReady,
    AwaitChildReady,
    WriteUidMap { content: Seq<u8> },
    WriteSetgroupsDeny,
    WriteGidMap { content: Seq<u8> },
    ReleaseChild,
    ChildAwaitsRelease,
    SwitchUser { uid: u32, gid: u32 },
    UnshareMountNamespace,
    Mount(MountOperationModel),
    ChangeDirectory { path: Seq<u8> },
    Execute { program: Seq<u8>, args: Seq<Seq<u8>> },
    AwaitChild,
}

impl View for Action {
    type V = ActionModel;

    open spec fn view(&self) -> ActionModel {
        match self {
            Action::CreateEventChannels => ActionModel::CreateEventChannels,
            Action::CloneChild { flags } => ActionModel::CloneChild { flags: *flags },
            Action::ChildSignalsReady => ActionModel::ChildSignalsReady,
            Action::AwaitChildReady => ActionModel::AwaitChildReady,
            Action::WriteUidMap { content } => ActionModel::WriteUidMap { content: content@ },
            Action::WriteSetgroupsDeny => ActionModel::WriteSetgroupsDeny,
            Action::WriteGidMap { content } => ActionModel::WriteGidMap { content: content@ },
            Action::ReleaseChild => ActionModel::ReleaseChild,
            Action::ChildAwaitsRelease => ActionModel::ChildAwaitsRelease,
            Action::SwitchUser { uid, gid } => ActionModel::SwitchUser { uid: *uid, gid: *gid },
            Action::UnshareMountNamespace => ActionModel::UnshareMountNamespace,
            Action::Mount(op) => ActionModel::Mount(op@),
            Action::ChangeDirectory { path } => ActionModel::ChangeDirectory { path: path@ },
            Action::Execute { program, args } => ActionModel::Execute {
                program: program@,
                args: args@.map_values(|a: Vec<u8>| a@),
            },
            Action::AwaitChild => ActionModel::AwaitChild,
        }
    }
}

/// The parent–child block a user-namespace step opens: create the
/// channels, clone into a new user namespace, run the rendezvous, and
/// install the maps — uid map first, then the `setgroups` deny, then
/// the gid map — before releasing the child.
pub open spec fn userns_opening(uid_content: Seq<u8>, gid_content: Seq<u8>) -> Seq<ActionModel> {
    seq![
        ActionModel::CreateEventChannels,
        ActionModel::CloneChild { flags: CLONE_NEWUSER },
        ActionModel::ChildSignalsReady,
        ActionModel::AwaitChildReady,
        ActionModel::WriteUidMap { content: uid_content },
        ActionModel::WriteSetgroupsDeny,
        ActionModel::WriteGidMap { content: gid_content },
        ActionModel::ReleaseChild,
        ActionModel::ChildAwaitsRelease,
    ]
}

/// The full ordered trace of a successful run of `s`.
pub open spec fn plan_spec(s: Step) -> Seq<ActionModel>
    decreases s,
{
    match s {
        Step::UserNamespace(u) => {
            let opening = userns_opening(id_map_content(u.uid_map@), id_map_content(u.gid_map@));
            let switch = match u.switch_to {
                Some(ids) => seq![ActionModel::SwitchUser { uid: ids.0, gid: ids.1 }],
                None => Seq::empty(),
            };
            opening + switch + plan_spec(*u.next_step) + seq![ActionModel::AwaitChild]
        },
        Step::MountNamespace(m) => {
            seq![ActionModel::UnshareMountNamespace] + m.operations@.map_values(
                |op: MountOperation| ActionModel::Mount(op@),
            ) + plan_spec(*m.next)
        },
        Step::PidNamespace(p) => {
            seq![ActionModel::CloneChild { flags: CLONE_NEWPID }] + plan_spec(*p.0) + seq![
                ActionModel::AwaitChild,
            ]
        },
        Step::SwitchUser(su) => {
            seq![ActionModel::SwitchUser { uid: su.uid, gid: su.gid }] + plan_spec(*su.next_step)
        },
        Step::SwitchWorkingDirectory(w) => {
            seq![ActionModel::ChangeDirectory { path: w.new_wd@ }] + plan_spec(*w.next)
        },
        Step::RunCommand(rc) => {
            seq![
                ActionModel::Execute {
                    program: rc.program@,
                    args: rc.args@.map_values(|a: Vec<u8>| a@),
                },
            ]
        },
    }
}

/// Computes the run plan of `s`: the actions of [`plan_spec`], in order,
/// as values the driver can act on.
pub fn build_plan(s: Step) -> (r: Vec<Action>)
    ensures
        r@.map_values(|a: Action| a@) == plan_spec(s),
    decreases s,
{
    let ghost s0 = s;
    let mut out: Vec<Action> = Vec::new();
    match s {
        Step::UserNamespace(u) => {
            let uid_content = u.uid_map.render();
            let gid_content = u.gid_map.render();
            out.push(Action::CreateEventChannels);
            out.push(Action::CloneChild { flags: CLONE_NEWUSER });
            out.push(Action::ChildSignalsReady);
            out.push(Action::AwaitChildReady);
            out.push(Action::WriteUidMap { content: uid_content });
            out.push(Action::WriteSetgroupsDeny);
            out.push(Action::WriteGidMap { content: gid_content });
            out.push(Action::ReleaseChild);
            out.push(Action::ChildAwaitsRelease);
            match u.switch_to {
                Some(ids) => {
                    out.push(Action::SwitchUser { uid: ids.0, gid: ids.1 });
                },
                None => {},
            }
            let mut sub = build_plan(*u.next_step);
            out.append(&mut sub);
            out.push(Action::AwaitChild);
            proof {
                assert(out@.map_values(|a: Action| a@) =~= plan_spec(s0));
            }
        },
        Step::MountNamespace(m) => {
            out.push(Action::UnshareMountNamespace);
            let mut ops = m.operations;
            let ghost ops0 = ops@;
            while ops.len() > 0
                invariant
                    out@.len() >= 1,
                    ops0.len() + 1 == out@.len() + ops@.len(),
                    ops@ =~= ops0.skip(out@.len() - 1),
                    out@[0] == Action::UnshareMountNamespace,
                    forall|t: int|
                        1 <= t < out@.len() ==> (#[trigger] out@[t]) == Action::Mount(
                            ops0[t - 1],
                        ),
                decreases ops@.len(),
            {
                let ghost k = out@.len() - 1;
                let op = ops.remove(0);
                proof {
                    assert(ops0.skip(k)[0] == ops0[k]);
                    assert(op == ops0[k]);
                    assert(ops@ =~= ops0.skip(k + 1));
                }
                out.push(Action::Mount(op));
            }
            let mut sub = build_plan(*m.next);
            let ghost mount_part = out@;
            let ghost sub0 = sub@;
            let ghost sub_plan = sub@.map_values(|a: Action| a@);
            out.append(&mut sub);
            proof {
                assert(mount_part.map_values(|a: Action| a@) =~= seq![
                    ActionModel::UnshareMountNamespace,
                ] + ops0.map_values(|op: MountOperation| ActionModel::Mount(op@)));
                assert(out@ =~= mount_part + sub0);
                assert(out@.map_values(|a: Action| a@) =~= mount_part.map_values(|a: Action| a@)
                    + sub_plan);
                assert(out@.map_values(|a: Action| a@) =~= plan_spec(s0));
            }
        },
        Step::PidNamespace(p) => {
            out.push(Action::CloneChild { flags: CLONE_NEWPID });
            let mut sub = build_plan(*p.0);
            out.append(&mut sub);
            out.push(Action::AwaitChild);
            proof {
                assert(out@.map_values(|a: Action| a@) =~= plan_spec(s0));
            }
        },
        Step::SwitchUser(su) => {
            out.push(Action::SwitchUser { uid: su.uid, gid: su.gid });
            let mut sub = build_plan(*su.next_step);
            out.append(&mut sub);
            proof {
                assert(out@.map_values(|a: Action| a@) =~= plan_spec(s0));
            }
        },
        Step::SwitchWorkingDirectory(w) => {
            out.push(Action::ChangeDirectory { path: w.new_wd });
            let mut sub = build_plan(*w.next);
            out.append(&mut sub);
            proof {
                assert(out@.map_values(|a: Action| a@) =~= plan_spec(s0));
            }
        },
        Step::RunCommand(rc) => {
            out.push(Action::Execute { program: rc.program, args: rc.args });
            proof {
                assert(out@.map_values(|a: Action| a@) =~= plan_spec(s0));
            }
        },
    }
    out
}

/// Map write-ordering: in the trace of any chain, every gid-map write
/// is preceded by a `setgroups` deny write.
pub proof fn lemma_setgroups_deny_precedes_gid_map(s: Step)
    ensures
        forall|i: int|
            0 <= i < plan_spec(s).len() && (#[trigger] plan_spec(s)[i]) is WriteGidMap
                ==> exists|j: int|
                0 <= j < i && (#[trigger] plan_spec(s)[j]) is WriteSetgroupsDeny,
    decreases s,
{
    let p = plan_spec(s);
    match s {
        Step::UserNamespace(u) => {
            assert forall|i: int| 0 <= i < p.len() && (#[trigger] p[i]) is WriteGidMap implies
                exists|j: int| 0 <= j < i && (#[trigger] p[j]) is WriteSetgroupsDeny by {
                assert(p[5] is WriteSetgroupsDeny);
                assert(!(p[0] is WriteGidMap));
                assert(!(p[1] is WriteGidMap));
                assert(!(p[2] is WriteGidMap));
                assert(!(p[3] is WriteGidMap));
                assert(!(p[4] is WriteGidMap));
                assert(!(p[5] is WriteGidMap));
                assert(i > 5);
                assert(0 <= 5 < i && p[5] is WriteSetgroupsDeny);
            }
        },
        Step::MountNamespace(m) => {
            lemma_setgroups_deny_precedes_gid_map(*m.next);
            let head = seq![ActionModel::UnshareMountNamespace] + m.operations@.map_values(
                |op: MountOperation| ActionModel::Mount(op@),
            );
            let sub = plan_spec(*m.next);
            assert forall|i: int| 0 <= i < p.len() && (#[trigger] p[i]) is WriteGidMap implies
                exists|j: int| 0 <= j < i && (#[trigger] p[j]) is WriteSetgroupsDeny by {
                assert(i >= head.len());
                let i2 = i - head.len();
                assert(p[i] == sub[i2]);
                let j2 = choose|j2: int|
                    0 <= j2 < i2 && (#[trigger] sub[j2]) is WriteSetgroupsDeny;
                assert(p[head.len() + j2] == sub[j2]);
            }
        },
        Step::PidNamespace(pd) => {
            lemma_setgroups_deny_precedes_gid_map(*pd.0);
            let sub = plan_spec(*pd.0);
            assert forall|i: int| 0 <= i < p.len() && (#[trigger] p[i]) is WriteGidMap implies
                exists|j: int| 0 <= j < i && (#[trigger] p[j]) is WriteSetgroupsDeny by {
                assert(1 <= i < 1 + sub.len());
                let i2 = i - 1;
                assert(p[i] == sub[i2]);
                let j2 = choose|j2: int|
                    0 <= j2 < i2 && (#[trigger] sub[j2]) is WriteSetgroupsDeny;
                assert(p[1 + j2] == sub[j2]);
            }
        },
        Step::SwitchUser(su) => {
            lemma_setgroups_deny_precedes_gid_map(*su.next_step);
            let sub = plan_spec(*su.next_step);
            assert forall|i: int| 0 <= i < p.len() && (#[trigger] p[i]) is WriteGidMap implies
                exists|j: int| 0 <= j < i && (#[trigger] p[j]) is WriteSetgroupsDeny by {
                assert(i >= 1);
                let i2 = i - 1;
                assert(p[i] == sub[i2]);
                let j2 = choose|j2: int|
                    0 <= j2 < i2 && (#[trigger] sub[j2]) is WriteSetgroupsDeny;
                assert(p[1 + j2] == sub[j2]);
            }
        },
        Step::SwitchWorkingDirectory(w) => {
            lemma_setgroups_deny_precedes_gid_map(*w.next);
            let sub = plan_spec(*w.next);
            assert forall|i: int| 0 <= i < p.len() && (#[trigger] p[i]) is WriteGidMap implies
                exists|j: int| 0 <= j < i && (#[trigger] p[j]) is WriteSetgroupsDeny by {
                assert(i >= 1);
                let i2 = i - 1;
                assert(p[i] == sub[i2]);
                let j2 = choose|j2: int|
                    0 <= j2 < i2 && (#[trigger] sub[j2]) is WriteSetgroupsDeny;
                assert(p[1 + j2] == sub[j2]);
            }
        },
        Step::RunCommand(_) => {},
    }
}

/// Rendezvous causality: in the trace of any chain, every uid-map write
/// happens after a child-ready receive and before a release send.
pub proof fn lemma_uid_map_within_rendezvous(s: Step)
    ensures
        forall|i: int|
            0 <= i < plan_spec(s).len() && (#[trigger] plan_spec(s)[i]) is WriteUidMap
                ==> (exists|j: int| 0 <= j < i && (#[trigger] plan_spec(s)[j]) is AwaitChildReady)
                && (exists|k: int|
                i < k < plan_spec(s).len() && (#[trigger] plan_spec(s)[k]) is ReleaseChild),
    decreases s,
{
    let p = plan_spec(s);
    match s {
        Step::UserNamespace(u) => {
            lemma_uid_map_within_rendezvous(*u.next_step);
            let opening = userns_opening(id_map_content(u.uid_map@), id_map_content(u.gid_map@));
            let switch = match u.switch_to {
                Some(ids) => seq![ActionModel::SwitchUser { uid: ids.0, gid: ids.1 }],
                None => Seq::<ActionModel>::empty(),
            };
            let sub = plan_spec(*u.next_step);
            let base = opening.len() + switch.len();
            assert forall|i: int| 0 <= i < p.len() && (#[trigger] p[i]) is WriteUidMap implies
                (exists|j: int| 0 <= j < i && (#[trigger] p[j]) is AwaitChildReady) && (exists|
                k: int|
                i < k < p.len() && (#[trigger] p[k]) is ReleaseChild) by {
                assert(p[3] is AwaitChildReady);
                assert(p[7] is ReleaseChild);
                assert(!(p[0] is WriteUidMap));
                assert(!(p[1] is WriteUidMap));
                assert(!(p[2] is WriteUidMap));
                assert(!(p[3] is WriteUidMap));
                if i == 4 {
                    assert(0 <= 3 < i && p[3] is AwaitChildReady);
                    assert(i < 7 < p.len() && p[7] is ReleaseChild);
                } else {
                    assert(i >= 5);
                    if i < base || i - base >= sub.len() {
                        assert(!(p[i] is WriteUidMap));
                    } else {
                        let i2 = i - base;
                        assert(p[i] == sub[i2]);
                        assert(0 <= 3 < i && p[3] is AwaitChildReady);
                        let k2 = choose|k2: int|
                            i2 < k2 < sub.len() && (#[trigger] sub[k2]) is ReleaseChild;
                        assert(p[base + k2] == sub[k2]);
                        assert(i < base + k2 < p.len() && p[base + k2] is ReleaseChild);
                    }
                }
            }
        },
        Step::MountNamespace(m) => {
            lemma_uid_map_within_rendezvous(*m.next);
            let head = seq![ActionModel::UnshareMountNamespace] + m.operations@.map_values(
                |op: MountOperation| ActionModel::Mount(op@),
            );
            let sub = plan_spec(*m.next);
            assert forall|i: int| 0 <= i < p.len() && (#[trigger] p[i]) is WriteUidMap implies
                (exists|j: int| 0 <= j < i && (#[trigger] p[j]) is AwaitChildReady) && (exists|
                k: int|
                i < k < p.len() && (#[trigger] p[k]) is ReleaseChild) by {
                assert(i >= head.len());
                let i2 = i - head.len();
                assert(p[i] == sub[i2]);
                let j2 = choose|j2: int|
                    0 <= j2 < i2 && (#[trigger] sub[j2]) is AwaitChildReady;
                assert(p[head.len() + j2] == sub[j2]);
                let k2 = choose|k2: int|
                    i2 < k2 < sub.len() && (#[trigger] sub[k2]) is ReleaseChild;
                assert(p[head.len() + k2] == sub[k2]);
                assert(i < head.len() + k2 < p.len());
            }
        },
        Step::PidNamespace(pd) => {
            lemma_uid_map_within_rendezvous(*pd.0);
            let sub = plan_spec(*pd.0);
            assert forall|i: int| 0 <= i < p.len() && (#[trigger] p[i]) is WriteUidMap implies
                (exists|j: int| 0 <= j < i && (#[trigger] p[j]) is AwaitChildReady) && (exists|
                k: int|
                i < k < p.len() && (#[trigger] p[k]) is ReleaseChild) by {
                assert(1 <= i < 1 + sub.len());
                let i2 = i - 1;
                assert(p[i] == sub[i2]);
                let j2 = choose|j2: int|
                    0 <= j2 < i2 && (#[trigger] sub[j2]) is AwaitChildReady;
                assert(p[1 + j2] == sub[j2]);
                let k2 = choose|k2: int|
                    i2 < k2 < sub.len() && (#[trigger] sub[k2]) is ReleaseChild;
                assert(p[1 + k2] == sub[k2]);
                assert(i < 1 + k2 < p.len());
            }
        },
        Step::SwitchUser(su) => {
            lemma_uid_map_within_rendezvous(*su.next_step);
            let sub = plan_spec(*su.next_step);
            assert forall|i: int| 0 <= i < p.len() && (#[trigger] p[i]) is WriteUidMap implies
                (exists|j: int| 0 <= j < i && (#[trigger] p[j]) is AwaitChildReady) && (exists|
                k: int|
                i < k < p.len() && (#[trigger] p[k]) is ReleaseChild) by {
                assert(i >= 1);
                let i2 = i - 1;
                assert(p[i] == sub[i2]);
                let j2 = choose|j2: int|
                    0 <= j2 < i2 && (#[trigger] sub[j2]) is AwaitChildReady;
                assert(p[1 + j2] == sub[j2]);
                let k2 = choose|k2: int|
                    i2 < k2 < sub.len() && (#[trigger] sub[k2]) is ReleaseChild;
                assert(p[1 + k2] == sub[k2]);
                assert(i < 1 + k2 < p.len());
            }
        },
        Step::SwitchWorkingDirectory(w) => {
            lemma_uid_map_within_rendezvous(*w.next);
            let sub = plan_spec(*w.next);
            assert forall|i: int| 0 <= i < p.len() && (#[trigger] p[i]) is WriteUidMap implies
                (exists|j: int| 0 <= j < i && (#[trigger] p[j]) is AwaitChildReady) && (exists|
                k: int|
                i < k < p.len() && (#[trigger] p[k]) is ReleaseChild) by {
                assert(i >= 1);
                let i2 = i - 1;
                assert(p[i] == sub[i2]);
                let j2 = choose|j2: int|
                    0 <= j2 < i2 && (#[trigger] sub[j2]) is AwaitChildReady;
                assert(p[1 + j2] == sub[j2]);
                let k2 = choose|k2: int|
                    i2 < k2 < sub.len() && (#[trigger] sub[k2]) is ReleaseChild;
                assert(p[1 + k2] == sub[k2]);
                assert(i < 1 + k2 < p.len());
            }
        },
        Step::RunCommand(_) => {},
    }
}

/// Handle accounting over the trace: every clone is followed by a wait
/// on the child, so no run plan leaves a cloned process unreaped.
pub proof fn lemma_every_clone_is_awaited(s: Step)
    ensures
        forall|i: int|
            0 <= i < plan_spec(s).len() && (#[trigger] plan_spec(s)[i]) is CloneChild
                ==> exists|k: int|
                i < k < plan_spec(s).len() && (#[trigger] plan_spec(s)[k]) is AwaitChild,
    decreases s,
{
    let p = plan_spec(s);
    match s {
        Step::UserNamespace(u) => {
            lemma_every_clone_is_awaited(*u.next_step);
            let opening = userns_opening(id_map_content(u.uid_map@), id_map_content(u.gid_map@));
            let switch = match u.switch_to {
                Some(ids) => seq![ActionModel::SwitchUser { uid: ids.0, gid: ids.1 }],
                None => Seq::<ActionModel>::empty(),
            };
            let sub = plan_spec(*u.next_step);
            let base = opening.len() + switch.len();
            assert forall|i: int| 0 <= i < p.len() && (#[trigger] p[i]) is CloneChild implies
                exists|k: int| i < k < p.len() && (#[trigger] p[k]) is AwaitChild by {
                assert(p[p.len() - 1] is AwaitChild);
                assert(i < p.len() - 1);
            }
        },
        Step::MountNamespace(m) => {
            lemma_every_clone_is_awaited(*m.next);
            let head = seq![ActionModel::UnshareMountNamespace] + m.operations@.map_values(
                |op: MountOperation| ActionModel::Mount(op@),
            );
            let sub = plan_spec(*m.next);
            assert forall|i: int| 0 <= i < p.len() && (#[trigger] p[i]) is CloneChild implies
                exists|k: int| i < k < p.len() && (#[trigger] p[k]) is AwaitChild by {
                assert(i >= head.len());
                let i2 = i - head.len();
                assert(p[i] == sub[i2]);
                let k2 = choose|k2: int|
                    i2 < k2 < sub.len() && (#[trigger] sub[k2]) is AwaitChild;
                assert(p[head.len() + k2] == sub[k2]);
                assert(i < head.len() + k2 < p.len());
            }
        },
        Step::PidNamespace(pd) => {
            assert forall|i: int| 0 <= i < p.len() && (#[trigger] p[i]) is CloneChild implies
                exists|k: int| i < k < p.len() && (#[trigger] p[k]) is AwaitChild by {
                assert(p[p.len() - 1] is AwaitChild);
                assert(i < p.len() - 1);
            }
        },
        Step::SwitchUser(su) => {
            lemma_every_clone_is_awaited(*su.next_step);
            let sub = plan_spec(*su.next_step);
            assert forall|i: int| 0 <= i < p.len() && (#[trigger] p[i]) is CloneChild implies
                exists|k: int| i < k < p.len() && (#[trigger] p[k]) is AwaitChild by {
                assert(i >= 1);
                let i2 = i - 1;
                assert(p[i] == sub[i2]);
                let k2 = choose|k2: int|
                    i2 < k2 < sub.len() && (#[trigger] sub[k2]) is AwaitChild;
                assert(p[1 + k2] == sub[k2]);
                assert(i < 1 + k2 < p.len());
            }
        },
        Step::SwitchWorkingDirectory(w) => {
            lemma_every_clone_is_awaited(*w.next);
            let sub = plan_spec(*w.next);
            assert forall|i: int| 0 <= i < p.len() && (#[trigger] p[i]) is CloneChild implies
                exists|k: int| i < k < p.len() && (#[trigger] p[k]) is AwaitChild by {
                assert(i >= 1);
                let i2 = i - 1;
                assert(p[i] == sub[i2]);
                let k2 = choose|k2: int|
                    i2 < k2 < sub.len() && (#[trigger] sub[k2]) is AwaitChild;
                assert(p[1 + k2] == sub[k2]);
                assert(i < 1 + k2 < p.len());
            }
        },
        Step::RunCommand(_) => {},
    }
}

/// How one performed action changes the context record: a clone that
/// enters a namespace sets that namespace's flag — user or pid, by the
/// clone's flag word — and unsharing the mount namespace sets the
/// mount flag. No action ever clears a flag.
pub open spec fn context_after_action(c: Context, a: ActionModel) -> Context {
    match a {
        ActionModel::CloneChild { flags } => Context {
            user: c.user || flags & crate::CLONE_NEWUSER != 0,
            pid: c.pid || flags & crate::CLONE_NEWPID != 0,
            ..c
        },
        ActionModel::UnshareMountNamespace => Context { mnt: true, ..c },
        _ => c,
    }
}

/// The context after performing a whole trace, action by action in
/// order.
pub open spec fn context_after_trace(c: Context, t: Seq<ActionModel>) -> Context
    decreases t.len(),
{
    if t.len() == 0 {
        c
    } else {
        context_after_trace(context_after_action(c, t[0]), t.drop_first())
    }
}

/// Records in the context what one performed action entered; the
/// driver calls this after each action it performs, so the record
/// follows [`context_after_trace`] along the run.
pub fn apply_action(ctx: &mut Context, action: &Action)
    ensures
        *final(ctx) == context_after_action(*old(ctx), action@),
{
    match action {
        Action::CloneChild { flags } => {
            if *flags & crate::CLONE_NEWUSER != 0 {
                ctx.entered_user_ns();
            }
            if *flags & crate::CLONE_NEWPID != 0 {
                ctx.entered_pid_ns();
            }
        },
        Action::UnshareMountNamespace => {
            ctx.entered_mnt_ns();
        },
        _ => {},
    }
}

/// Once set, a context flag stays set: a trace only ever adds flags
/// (the invariant of the context record along a run).
pub proof fn lemma_context_trace_monotone(c: Context, t: Seq<ActionModel>)
    ensures
        context_le(c, context_after_trace(c, t)),
    decreases t.len(),
{
    if t.len() > 0 {
        lemma_context_trace_monotone(context_after_action(c, t[0]), t.drop_first());
    }
}

/// A trace performed in two pieces lands in the same context as the
/// whole.
proof fn lemma_context_after_trace_add(c: Context, a: Seq<ActionModel>, b: Seq<ActionModel>)
    ensures
        context_after_trace(c, a + b) == context_after_trace(context_after_trace(c, a), b),
    decreases a.len(),
{
    if a.len() == 0 {
        assert(a + b =~= b);
    } else {
        assert((a + b)[0] == a[0]);
        assert((a + b).drop_first() =~= a.drop_first() + b);
        lemma_context_after_trace_add(context_after_action(c, a[0]), a.drop_first(), b);
    }
}

/// Each namespace-entering step records its namespace before its
/// successor runs: from the moment the chain's own entering action is
/// performed — the user-namespace clone, the pid-namespace clone, the
/// mount unshare — every later point of the run, the successor's
/// actions among them, sees the flag set.
pub proof fn lemma_namespace_flag_set_before_successor(c: Context, s: Step)
    ensures
        s is UserNamespace ==> forall|j: int|
            2 <= j <= plan_spec(s).len() ==> context_after_trace(
                c,
                #[trigger] plan_spec(s).take(j),
            ).user,
        s is PidNamespace ==> forall|j: int|
            1 <= j <= plan_spec(s).len() ==> context_after_trace(
                c,
                #[trigger] plan_spec(s).take(j),
            ).pid,
        s is MountNamespace ==> forall|j: int|
            1 <= j <= plan_spec(s).len() ==> context_after_trace(
                c,
                #[trigger] plan_spec(s).take(j),
            ).mnt,
{
    let p = plan_spec(s);
    match s {
        Step::UserNamespace(u) => {
            let head = p.take(2);
            assert(head =~= seq![
                ActionModel::CreateEventChannels,
                ActionModel::CloneChild { flags: CLONE_NEWUSER },
            ]);
            assert(head.drop_first() =~= seq![ActionModel::CloneChild { flags: CLONE_NEWUSER }]);
            assert(head.drop_first().drop_first() =~= Seq::<ActionModel>::empty());
            assert(CLONE_NEWUSER & CLONE_NEWUSER != 0) by (bit_vector);
            reveal_with_fuel(context_after_trace, 4);
            assert(context_after_trace(c, head).user);
            assert forall|j: int| 2 <= j <= p.len() implies context_after_trace(
                c,
                #[trigger] p.take(j),
            ).user by {
                assert(p.take(j) =~= head + p.take(j).skip(2));
                lemma_context_after_trace_add(c, head, p.take(j).skip(2));
                lemma_context_trace_monotone(context_after_trace(c, head), p.take(j).skip(2));
            }
        },
        Step::PidNamespace(pd) => {
            let head = p.take(1);
            assert(head =~= seq![ActionModel::CloneChild { flags: CLONE_NEWPID }]);
            assert(head.drop_first() =~= Seq::<ActionModel>::empty());
            assert(CLONE_NEWPID & CLONE_NEWPID != 0) by (bit_vector);
            reveal_with_fuel(context_after_trace, 3);
            assert(context_after_trace(c, head).pid);
            assert forall|j: int| 1 <= j <= p.len() implies context_after_trace(
                c,
                #[trigger] p.take(j),
            ).pid by {
                assert(p.take(j) =~= head + p.take(j).skip(1));
                lemma_context_after_trace_add(c, head, p.take(j).skip(1));
                lemma_context_trace_monotone(context_after_trace(c, head), p.take(j).skip(1));
            }
        },
        Step::MountNamespace(m) => {
            let head = p.take(1);
            assert(head =~= seq![ActionModel::UnshareMountNamespace]);
            assert(head.drop_first() =~= Seq::<ActionModel>::empty());
            reveal_with_fuel(context_after_trace, 3);
            assert(context_after_trace(c, head).mnt);
            assert forall|j: int| 1 <= j <= p.len() implies context_after_trace(
                c,
                #[trigger] p.take(j),
            ).mnt by {
                assert(p.take(j) =~= head + p.take(j).skip(1));
                lemma_context_after_trace_add(c, head, p.take(j).skip(1));
                lemma_context_trace_monotone(context_after_trace(c, head), p.take(j).skip(1));
            }
        },
        _ => {},
    }
}

} // verus!

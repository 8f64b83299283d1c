//! The attachment manager: one loaded handle and the probes attached through it.

use vstd::prelude::*;
use vstd::string::StringExecFns;
use crate::error::Error;
use crate::handle::{HandleView, OpenSkelStorage, SkelStorage, Stage};
use crate::release::{well_ordered, Failure, Release};

verus! {

/// The name of the one program in the resource through which every probe is
/// attached.
pub const PROGRAM_NAME: &'static str = "kprobe_placeholder";

/// The log level that the manager forces on the resource before loading it.
pub const LOG_LEVEL: u32 = 0;

/// Whether `index` is the place of the first program called `name`.
pub open spec fn first_match(programs: Seq<Seq<char>>, name: Seq<char>, index: int) -> bool {
    &&& 0 <= index < programs.len()
    &&& programs[index] == name
    &&& forall|earlier: int| 0 <= earlier < index ==> programs[earlier] != name
}

/// Finds the first program called `PROGRAM_NAME`, if there is one.
pub fn find_program(programs: &Vec<String>) -> (found: Option<usize>)
    ensures
        match found {
            Some(index) => first_match(programs.deep_view(), PROGRAM_NAME@, index as int),
            None => !programs.deep_view().contains(PROGRAM_NAME@),
        },
{
    let wanted = String::from_str(PROGRAM_NAME);
    let mut index: usize = 0;
    while index < programs.len()
        invariant
            index <= programs.len(),
            wanted@ == PROGRAM_NAME@,
            forall|earlier: int| 0 <= earlier < index ==> programs.deep_view()[earlier] != PROGRAM_NAME@,
        decreases programs.len() - index,
    {
        if programs[index] == wanted {
            return Some(index);
        }
        index += 1;
    }
    None
}

/// One live attachment, as the manager's contracts see it.
pub struct AttachmentView {
    /// The identity of the attachment: its place in the order of attaching.
    pub id: nat,
    /// The kernel symbol that the probe sits on.
    pub probe: Seq<char>,
}

/// What a manager is: its loaded handle and its live attachments, oldest first.
pub struct ManagerView {
    pub handle: HandleView,
    pub links: Seq<AttachmentView>,
}

impl ManagerView {
    /// What holds of every manager: the handle is loaded with the forced log
    /// level, and each attachment's identity is its place in the collection.
    pub open spec fn wf(self) -> bool {
        &&& self.handle.stage == Stage::Loaded
        &&& self.handle.log_level == LOG_LEVEL
        &&& forall|i: int| 0 <= i < self.links.len() ==> (#[trigger] self.links[i]).id == i
    }

    /// The manager right after construction from the open handle `skel`, whose
    /// loaded resource holds `programs`: the log level forced, the handle
    /// loaded, nothing attached.
    pub open spec fn created(skel: HandleView, programs: Seq<Seq<char>>) -> ManagerView {
        ManagerView { handle: skel.configure(LOG_LEVEL).load(programs), links: Seq::empty() }
    }

    /// Whether the resource holds the program that probes attach through.
    pub open spec fn has_program(self) -> bool {
        self.handle.programs.contains(PROGRAM_NAME@)
    }

    /// What a call of `attach` answers, where `attached` says whether the
    /// kernel accepted the attachment.
    pub open spec fn attach_result(self, attached: bool) -> Result<(), Error> {
        if !self.has_program() {
            Err(Error::ProgramNotFound)
        } else if !attached {
            Err(Error::AttachFailure)
        } else {
            Ok(())
        }
    }

    /// The manager after a call of `attach`. A call that succeeds adds one
    /// attachment at the end; a call that fails changes nothing.
    pub open spec fn attach(self, probe: Seq<char>, attached: bool) -> ManagerView {
        if self.attach_result(attached) is Ok {
            ManagerView {
                links: self.links.push(AttachmentView { id: self.links.len(), probe }),
                ..self
            }
        } else {
            self
        }
    }

    /// What tearing the manager down releases, in order: every attachment,
    /// oldest first, then the resource value, then the storage.
    pub open spec fn teardown(self) -> Seq<Release> {
        Seq::new(self.links.len(), |i: int| Release::Attachment(self.links[i].id as usize))
            + self.handle.teardown()
    }
}

/// What the caller has to ask of the kernel for one attachment.
#[derive(Debug)]
pub struct AttachRequest {
    /// The place, in the resource's order, of the program to attach.
    pub program: usize,
    /// Whether to probe the return of the function rather than its entry.
    pub retprobe: bool,
    /// The kernel symbol to probe.
    pub symbol: String,
}

/// One live attachment.
#[derive(Debug)]
pub struct Attachment {
    id: usize,
    probe: String,
}

impl View for Attachment {
    type V = AttachmentView;

    closed spec fn view(&self) -> AttachmentView {
        AttachmentView { id: self.id as nat, probe: self.probe@ }
    }
}

impl DeepView for Attachment {
    type V = AttachmentView;

    open spec fn deep_view(&self) -> AttachmentView {
        self@
    }
}

impl Attachment {
    /// The identity of the attachment: its place in the order of attaching.
    pub fn id(&self) -> (id: usize)
        ensures
            id == self@.id,
    {
        self.id
    }

    /// The kernel symbol that the probe sits on.
    pub fn probe(&self) -> (probe: &String)
        ensures
            probe@ == self@.probe,
    {
        &self.probe
    }
}

/// The manager: one loaded handle and the attachments made through it.
///
/// Attachments are only ever added. They stay until the manager is torn down,
/// and go before the handle does.
#[derive(Debug)]
pub struct KprobeManager {
    skel: SkelStorage,
    links: Vec<Attachment>,
}

impl View for KprobeManager {
    type V = ManagerView;

    closed spec fn view(&self) -> ManagerView {
        ManagerView { handle: self.skel@, links: self.links.deep_view() }
    }
}

impl KprobeManager {
    #[verifier::type_invariant]
    spec fn well_formed(self) -> bool {
        self@.wf()
    }

    /// Makes a manager from the open handle `skel`.
    ///
    /// The log level is forced to `LOG_LEVEL` before loading. `loaded` is the
    /// answer of the native load step: the names of the programs of the loaded
    /// resource, in its order, or `None` if the kernel rejected it. On success
    /// the manager owns the loaded handle and has no attachment. On rejection
    /// nothing is kept: the resource value and then the storage are released.
    pub fn new(skel: OpenSkelStorage, loaded: Option<Vec<String>>) -> (manager: Result<
        KprobeManager,
        Failure,
    >)
        ensures
            match loaded {
                Some(programs) => manager matches Ok(m) && m@ == ManagerView::created(
                    skel@,
                    programs.deep_view(),
                ) && m@.wf(),
                None => manager matches Err(failure) && failure.error == Error::LoadFailure
                    && failure.releases@ == skel@.teardown() && well_ordered(failure.releases@),
            },
    {
        let mut skel = skel;
        skel.set_log_level(LOG_LEVEL);
        match SkelStorage::load(skel, loaded) {
            Ok(skel) => {
                let manager = KprobeManager { skel, links: Vec::new() };
                assert(manager@.links =~= Seq::empty());
                Ok(manager)
            },
            Err(failure) => Err(failure),
        }
    }

    /// The loaded handle.
    pub fn skel(&self) -> (skel: &SkelStorage)
        ensures
            skel@ == self@.handle,
            self@.wf(),
    {
        proof {
            use_type_invariant(self);
        }
        &self.skel
    }

    /// The live attachments, oldest first.
    pub fn links(&self) -> (links: &Vec<Attachment>)
        ensures
            links.deep_view() == self@.links,
            self@.wf(),
    {
        proof {
            use_type_invariant(self);
        }
        &self.links
    }

    /// Says what to ask of the kernel in order to put a probe on the entry of
    /// the kernel function `probe`: which program to attach, and where.
    ///
    /// Fails with `ProgramNotFound` exactly when the resource holds no program
    /// called `PROGRAM_NAME`.
    pub fn request(&self, probe: &str) -> (request: Result<AttachRequest, Error>)
        ensures
            request is Ok <==> self@.has_program(),
            match request {
                Ok(r) => first_match(self@.handle.programs, PROGRAM_NAME@, r.program as int)
                    && !r.retprobe && r.symbol@ == probe@,
                Err(e) => e == Error::ProgramNotFound,
            },
    {
        match find_program(self.skel.programs()) {
            Some(program) => Ok(
                AttachRequest { program, retprobe: false, symbol: String::from_str(probe) },
            ),
            None => Err(Error::ProgramNotFound),
        }
    }

    /// Records the outcome of attaching a probe to the kernel function `probe`.
    ///
    /// `attached` says whether the kernel accepted the attachment that
    /// `request` described. The call succeeds exactly when the resource holds
    /// the program and the kernel accepted; it then adds one attachment, with
    /// the next identity, after those already there. A call that fails leaves
    /// the manager as it was.
    pub fn attach(&mut self, probe: &str, attached: bool) -> (result: Result<(), Error>)
        ensures
            result == old(self)@.attach_result(attached),
            final(self)@ == old(self)@.attach(probe@, attached),
            final(self)@.wf(),
    {
        proof {
            use_type_invariant(&*self);
        }
        if find_program(self.skel.programs()).is_none() {
            return Err(Error::ProgramNotFound);
        }
        if !attached {
            return Err(Error::AttachFailure);
        }
        let mut links: Vec<Attachment> = Vec::new();
        core::mem::swap(&mut self.links, &mut links);
        let id: usize = links.len();
        links.push(Attachment { id, probe: String::from_str(probe) });
        assert(links.deep_view() =~= old(self)@.links.push(
            AttachmentView { id: id as nat, probe: probe@ },
        ));
        self.links = links;
        Ok(())
    }

    /// Tears the manager down. Gives what is released, in order: every
    /// attachment, oldest first, then the resource value, then the storage.
    pub fn teardown(self) -> (plan: Vec<Release>)
        ensures
            plan@ == self@.teardown(),
            well_ordered(plan@),
    {
        let count: usize = self.links.len();
        proof {
            use_type_invariant(&self);
            lemma_manager_teardown_order(self@);
        }
        let mut plan: Vec<Release> = Vec::new();
        let mut next: usize = 0;
        while next < count
            invariant
                count == self.links.len(),
                next <= count,
                plan@ == Seq::new(
                    next as nat,
                    |i: int| Release::Attachment(self@.links[i].id as usize),
                ),
            decreases count - next,
        {
            plan.push(Release::Attachment(self.links[next].id()));
            next += 1;
        }
        plan.push(Release::Resource);
        plan.push(Release::Storage);
        plan
    }
}

/// One call of `attach`: the symbol asked for, and whether the kernel accepted.
pub struct AttachCall {
    pub probe: Seq<char>,
    pub attached: bool,
}

/// The manager after a sequence of calls of `attach`, first to last.
pub open spec fn run(manager: ManagerView, calls: Seq<AttachCall>) -> ManagerView
    decreases calls.len(),
{
    if calls.len() == 0 {
        manager
    } else {
        run(manager, calls.drop_last()).attach(calls.last().probe, calls.last().attached)
    }
}

/// The symbols of the calls that the kernel accepted, in the order of the calls.
pub open spec fn accepted(calls: Seq<AttachCall>) -> Seq<Seq<char>>
    decreases calls.len(),
{
    if calls.len() == 0 {
        Seq::empty()
    } else if calls.last().attached {
        accepted(calls.drop_last()).push(calls.last().probe)
    } else {
        accepted(calls.drop_last())
    }
}

/// Without the program nothing can be attached: where the resource holds no
/// program called `PROGRAM_NAME`, attaching fails with `ProgramNotFound`
/// whatever the symbol, a name that no program of the resource bears included,
/// and whatever the kernel would have said; the manager stays as it was.
pub proof fn lemma_attach_without_program(manager: ManagerView, probe: Seq<char>, attached: bool)
    requires
        !manager.has_program(),
    ensures
        manager.attach_result(attached) == Err::<(), Error>(Error::ProgramNotFound),
        manager.attach(probe, attached) == manager,
{
}

/// A call that fails, for whichever reason, leaves every earlier attachment in
/// place and adds none.
pub proof fn lemma_failed_attach_changes_nothing(
    manager: ManagerView,
    probe: Seq<char>,
    attached: bool,
)
    requires
        manager.attach_result(attached) is Err,
    ensures
        manager.attach(probe, attached) == manager,
{
}

/// Attaching never touches the handle: after any sequence of calls, accepted
/// or not, the manager has the handle it had, in the loaded stage, with the
/// same storage, configuration and programs.
pub proof fn lemma_attaching_keeps_the_handle(manager: ManagerView, calls: Seq<AttachCall>)
    ensures
        run(manager, calls).handle == manager.handle,
    decreases calls.len(),
{
    if calls.len() > 0 {
        lemma_attaching_keeps_the_handle(manager, calls.drop_last());
    }
}

/// The live attachments are the accepted calls, one for one and in order.
///
/// After any sequence of calls on a manager whose resource holds the program,
/// the attachments that were there before are untouched, and after them stands
/// one attachment for each call that the kernel accepted, on the symbol of that
/// call and with the next identity. So the number of attachments added is the
/// number of successful calls. The handle is the one the manager had: it stays
/// loaded, with the same storage.
pub proof fn lemma_attachments_follow_accepted_calls(manager: ManagerView, calls: Seq<AttachCall>)
    requires
        manager.wf(),
        manager.has_program(),
    ensures
        run(manager, calls).wf(),
        run(manager, calls).handle == manager.handle,
        run(manager, calls).links.len() == manager.links.len() + accepted(calls).len(),
        forall|i: int|
            0 <= i < manager.links.len() ==> #[trigger] run(manager, calls).links[i]
                == manager.links[i],
        forall|k: int|
            0 <= k < accepted(calls).len() ==> #[trigger] run(manager, calls).links[
                manager.links.len() + k
            ] == (AttachmentView {
                id: (manager.links.len() + k) as nat,
                probe: accepted(calls)[k],
            }),
    decreases calls.len(),
{
    if calls.len() > 0 {
        lemma_attachments_follow_accepted_calls(manager, calls.drop_last());
        let before = run(manager, calls.drop_last());
        let after = run(manager, calls);
        assert(after == before.attach(calls.last().probe, calls.last().attached));
        assert(before.has_program());
        if calls.last().attached {
            assert forall|k: int| 0 <= k < accepted(calls).len() implies #[trigger] after.links[
                manager.links.len() + k
            ] == (AttachmentView {
                id: (manager.links.len() + k) as nat,
                probe: accepted(calls)[k],
            }) by {
                if k < accepted(calls.drop_last()).len() {
                    assert(after.links[manager.links.len() + k] == before.links[manager.links.len()
                        + k]);
                }
            }
        }
    }
}

/// Where the kernel accepts every call, every call has its attachment.
pub proof fn lemma_every_call_accepted(calls: Seq<AttachCall>)
    requires
        forall|k: int| 0 <= k < calls.len() ==> (#[trigger] calls[k]).attached,
    ensures
        accepted(calls).len() == calls.len(),
        forall|k: int| 0 <= k < calls.len() ==> #[trigger] accepted(calls)[k] == calls[k].probe,
    decreases calls.len(),
{
    if calls.len() > 0 {
        let earlier = calls.drop_last();
        assert forall|k: int| 0 <= k < earlier.len() implies (#[trigger] earlier[k]).attached by {
            assert(calls[k].attached);
        }
        lemma_every_call_accepted(earlier);
        assert forall|k: int| 0 <= k < calls.len() implies #[trigger] accepted(calls)[k]
            == calls[k].probe by {
            if k < earlier.len() {
                assert(accepted(earlier)[k] == earlier[k].probe);
            }
        }
    }
}

/// After a run of successful calls on a fresh manager there are as many live
/// attachments as calls, the attachment of each call sits on the symbol that
/// the call asked for, no two attachments share an identity, and where the
/// calls asked for different symbols no two attachments share a symbol.
pub proof fn lemma_successful_calls_give_attachments(manager: ManagerView, calls: Seq<AttachCall>)
    requires
        manager.wf(),
        manager.has_program(),
        manager.links.len() == 0,
        forall|k: int| 0 <= k < calls.len() ==> (#[trigger] calls[k]).attached,
    ensures
        run(manager, calls).links.len() == calls.len(),
        forall|k: int|
            0 <= k < calls.len() ==> (#[trigger] run(manager, calls).links[k]).probe
                == calls[k].probe,
        forall|j: int, k: int|
            0 <= j < k < calls.len() ==> (#[trigger] run(manager, calls).links[j]).id != (
            #[trigger] run(manager, calls).links[k]).id,
        (forall|j: int, k: int|
            0 <= j < k < calls.len() ==> (#[trigger] calls[j]).probe != (#[trigger] calls[k]).probe)
            ==> forall|j: int, k: int|
            0 <= j < k < calls.len() ==> (#[trigger] run(manager, calls).links[j]).probe != (
            #[trigger] run(manager, calls).links[k]).probe,
{
    lemma_every_call_accepted(calls);
    lemma_attachments_follow_accepted_calls(manager, calls);
    let after = run(manager, calls);
    assert forall|k: int| 0 <= k < calls.len() implies (#[trigger] after.links[k]).probe
        == calls[k].probe by {
        assert(after.links[manager.links.len() + k].probe == accepted(calls)[k]);
    }
}

/// Tearing a manager down releases every attachment, oldest first, then the
/// resource value, then the storage: the sequence is well ordered.
pub proof fn lemma_manager_teardown_order(manager: ManagerView)
    requires
        manager.wf(),
        manager.links.len() <= usize::MAX,
    ensures
        well_ordered(manager.teardown()),
        manager.teardown().len() == manager.links.len() + 2,
        forall|i: int|
            0 <= i < manager.links.len() ==> #[trigger] manager.teardown()[i]
                == Release::Attachment(i as usize),
        manager.teardown()[manager.links.len() as int] == Release::Resource,
        manager.teardown()[manager.links.len() as int + 1] == Release::Storage,
{
    let plan = manager.teardown();
    let count = manager.links.len() as int;
    assert forall|i: int| 0 <= i < count implies #[trigger] plan[i] == Release::Attachment(
        i as usize,
    ) by {
        assert(manager.links[i].id == i);
    }
    assert(plan[count] == Release::Resource);
    assert(plan[count + 1] == Release::Storage);
}

} // verus!

//! The boot synchronizer: projecting a freshly written state onto bootable
//! kernel entries.
//!
//! The synchronizer is a state machine.  Classification and discovery are
//! pure and happen at construction; every step that touches the outside
//! world — reading the os-release file, kernel-schema discovery, snippet
//! loading, boot-manager construction, mounting, writing — is an [`Action`]
//! the caller performs, reporting what happened back as an event.  The
//! machine owns the decision policy, and the policy is three-tiered:
//!
//! * absorbed as a successful no-op: a state with no kernels, no boot-loader
//!   assets, or a root whose partition topology the boot manager cannot
//!   handle (such a root is simply not bootable, which must not fail the
//!   package transaction);
//! * recorded as a warning, never fatal: a boot entry whose extra command
//!   line snippets fail to load (one bad vendor snippet must not keep every
//!   other kernel from booting);
//! * propagated: an unreadable or unparseable os-release, a failed kernel
//!   discovery, and any mount or write failure (a half-written boot
//!   configuration must never be swallowed).

use vstd::prelude::*;

use crate::decimal::dec_of_int;
use crate::decimal::dec_string_signed;
use crate::discover::{
    boot_assets_spec, boot_files_from_state, cands_model, kernel_candidates_spec,
    kernel_files_from_state, paths_model, Installation, KernelCandidate, Layout,
};
use crate::paths::{resolve_usr, usr_path};
use crate::pattern::{parse_rec, parse_spec, GroupPoint, Pattern, PatternError};
use crate::state::{PackageId, State};

verus! {

/// The kernel discovery pattern: kernels ship as
/// `lib/kernel/<version>/<file>` under the root's `usr` tree.
pub open spec fn kernel_pattern_text() -> Seq<char> {
    "lib/kernel/(version:*)/*"@
}

/// The boot-loader asset pattern: systemd-boot EFI binaries.
pub open spec fn boot_pattern_text() -> Seq<char> {
    "lib*/systemd/boot/efi/*.efi"@
}

/// The command-line token that ties a boot entry back to its state:
/// `moss.fstx=<decimal id>`.  This exact string is a compatibility surface
/// read back by boot-time tooling.
pub open spec fn fstx_snippet(id: int) -> Seq<char> {
    "moss.fstx="@ + dec_of_int(id)
}

/// Why synchronization failed.
#[derive(Debug, Clone)]
pub enum BootError {
    /// The os-release file could not be read.
    Io(String),
    /// The os-release text could not be parsed.
    OsRelease(String),
    /// The external kernel-discovery schema failed.
    Discovery(String),
    /// Mounting the partitions the boot loader needs failed.
    Mount(String),
    /// Writing the boot configuration failed.
    Sync(String),
    /// A discovery pattern failed to compile.
    Pattern(PatternError),
}

/// The OS identity resolved from the target's os-release file, as plain
/// values.
#[derive(Debug, Clone)]
pub struct OsIdentity {
    pub name: String,
    pub id: String,
    pub version_id: String,
}

/// One extra kernel command line fragment.
#[derive(Debug, Clone)]
pub struct CmdlineEntry {
    pub name: String,
    pub snippet: String,
}

/// One selectable boot menu item: a discovered kernel plus its command
/// line, tagged with the owning state id.
#[derive(Debug, Clone)]
pub struct BootEntry {
    /// Index into the discovered kernel list.
    pub kernel_index: usize,
    /// The owning state id, for driver-side bookkeeping.
    pub state_id: i64,
    /// Command line fragments; the first is always the fstx tag.
    pub cmdline: Vec<CmdlineEntry>,
}

/// Where the synchronizer stands.
#[derive(Debug)]
pub enum Phase {
    /// The os-release file must be read and parsed.
    AwaitOsRelease,
    /// Kernel candidates must be handed to the discovery schema.
    AwaitKernels,
    /// Command line snippets must be loaded for the given entry.
    AwaitSnippets { next: usize },
    /// The boot manager must be constructed.
    AwaitManager,
    /// The boot partitions must be mounted (native roots only).
    AwaitMount,
    /// The boot configuration must be written.
    AwaitSync,
    /// Synchronization finished, legitimately skipped or failed.
    Complete { outcome: Result<(), BootError> },
}

/// What the caller must perform next.
#[derive(Debug, Clone, Copy, PartialEq, Eq, Structural)]
pub enum Action {
    /// Read and parse `<root>/usr/lib/os-release`.
    ReadOsRelease,
    /// Run the kernel-discovery schema over the candidate paths.
    DiscoverKernels,
    /// Load extra command line snippets for the given entry.
    LoadSnippets { entry: usize },
    /// Construct the boot manager over the entries and assets.
    BuildManager,
    /// Mount the partitions the boot loader needs.
    MountPartitions,
    /// Write the boot configuration.
    SyncLoader,
    /// Nothing: synchronization is complete.
    Done,
}

/// What reading and parsing the os-release file yielded.
#[derive(Debug, Clone)]
pub enum OsReleaseEvent {
    /// The file was read and parsed.
    Parsed(OsIdentity),
    /// The file could not be read.
    ReadFailed(String),
    /// The text could not be parsed.
    ParseFailed(String),
}

/// What loading one entry's extra snippets yielded.
#[derive(Debug, Clone)]
pub enum SnippetEvent {
    /// The fragments found for this entry, possibly none.
    Loaded(Vec<CmdlineEntry>),
    /// Loading failed; recorded as a warning, never fatal.
    Failed(String),
}

/// A freshly built entry for kernel `i`: tagged with the state id and
/// carrying exactly the fstx fragment.
pub open spec fn entry_fresh(e: BootEntry, i: int, id: int) -> bool {
    &&& e.kernel_index == i
    &&& e.state_id == id
    &&& e.cmdline@.len() == 1
    &&& e.cmdline@[0].name@ == "---fstx---"@
    &&& e.cmdline@[0].snippet@ == fstx_snippet(id)
}

/// Every built entry is tagged with the owning state id: its first command
/// line fragment is exactly `moss.fstx=<id>`.
pub open spec fn entries_tagged(m: Synchronizer) -> bool {
    forall|i: int|
        0 <= i < m.entries@.len() ==> {
            &&& (#[trigger] m.entries@[i]).state_id == m.state_id
            &&& m.entries@[i].cmdline@.len() >= 1
            &&& m.entries@[i].cmdline@[0].name@ == "---fstx---"@
            &&& m.entries@[i].cmdline@[0].snippet@ == fstx_snippet(m.state_id as int)
        }
}

/// The fields fixed at construction: classification, discovery results and
/// the owning state id never change while the machine runs.
pub open spec fn same_inputs(a: Synchronizer, b: Synchronizer) -> bool {
    &&& a.root@ == b.root@
    &&& a.native == b.native
    &&& a.state_id == b.state_id
    &&& a.kernels@ == b.kernels@
    &&& a.boot_assets@ == b.boot_assets@
}

/// The boot synchronizer for one `(installation, state, layouts)` triple.
#[derive(Debug)]
pub struct Synchronizer {
    /// The installation root being synchronized.
    pub root: String,
    /// Whether the root is the currently running system (`/`) rather than
    /// an offline image.
    pub native: bool,
    /// The id of the state being made bootable.
    pub state_id: i64,
    /// Discovered kernel candidates, in layout order.
    pub kernels: Vec<KernelCandidate>,
    /// Discovered boot-loader asset paths, in layout order.
    pub boot_assets: Vec<String>,
    /// The OS identity, once resolved.
    pub os_identity: Option<OsIdentity>,
    /// The boot entries being assembled, one per discovered kernel.
    pub entries: Vec<BootEntry>,
    /// Non-fatal trouble along the way, one message per incident.
    pub warnings: Vec<String>,
    /// Where the machine stands.
    pub phase: Phase,
}

impl Synchronizer {
    /// The machine's invariant: phases that write are only reachable with
    /// something to write, mounting only happens on native roots, and every
    /// assembled entry carries its fstx tag.
    pub open spec fn wf(&self) -> bool {
        &&& match self.phase {
            Phase::AwaitSnippets { next } => next < self.entries@.len(),
            Phase::AwaitMount => self.native,
            _ => true,
        }
        &&& (!(self.phase is Complete) ==> self.kernels@.len() > 0 && self.boot_assets@.len()
            > 0)
        &&& entries_tagged(*self)
    }

    /// Classifies the root, compiles the two discovery patterns and runs
    /// discovery.  A state shipping no kernels or no boot-loader assets is
    /// complete at once, successfully, without touching boot configuration.
    pub fn new(install: &Installation, state: &State, layouts: &Vec<(PackageId, Layout)>) -> (r:
        Result<Synchronizer, BootError>)
        ensures
            match r {
                Ok(m) => {
                    &&& m.wf()
                    &&& parse_spec(kernel_pattern_text()) is Some
                    &&& parse_spec(boot_pattern_text()) is Some
                    &&& m.root@ == install.root@
                    &&& m.native == (install.root@ == "/"@)
                    &&& m.state_id == state.id.0
                    &&& cands_model(m.kernels@) == kernel_candidates_spec(
                        install.root@,
                        parse_spec(kernel_pattern_text()).unwrap(),
                        layouts@,
                        layouts@.len() as int,
                    )
                    &&& paths_model(m.boot_assets@) == boot_assets_spec(
                        install.root@,
                        parse_spec(boot_pattern_text()).unwrap(),
                        layouts@,
                        layouts@.len() as int,
                    )
                    &&& m.os_identity is None
                    &&& m.entries@.len() == 0
                    &&& m.warnings@.len() == 0
                    &&& if m.kernels@.len() == 0 || m.boot_assets@.len() == 0 {
                        m.phase == (Phase::Complete { outcome: Ok::<(), BootError>(()) })
                    } else {
                        m.phase is AwaitOsRelease
                    }
                },
                Err(e) => {
                    &&& (parse_spec(kernel_pattern_text()) is None || parse_spec(
                        boot_pattern_text(),
                    ) is None)
                    &&& e is Pattern
                },
            },
    {
        let native = install.root.eq(&String::from_str("/"));
        let kernel_pattern = match Pattern::from_str("lib/kernel/(version:*)/*") {
            Ok(p) => p,
            Err(e) => {
                return Err(BootError::Pattern(e));
            },
        };
        let boot_pattern = match Pattern::from_str("lib*/systemd/boot/efi/*.efi") {
            Ok(p) => p,
            Err(e) => {
                return Err(BootError::Pattern(e));
            },
        };
        let kernels = kernel_files_from_state(install, layouts, &kernel_pattern);
        let boot_assets = boot_files_from_state(install, layouts, &boot_pattern);
        let skipped = kernels.len() == 0 || boot_assets.len() == 0;
        let phase = if skipped {
            Phase::Complete { outcome: Ok(()) }
        } else {
            Phase::AwaitOsRelease
        };
        Ok(
            Synchronizer {
                root: install.root.clone(),
                native,
                state_id: state.id.0,
                kernels,
                boot_assets,
                os_identity: None,
                entries: Vec::new(),
                warnings: Vec::new(),
                phase,
            },
        )
    }

    /// What the caller must perform next; `Done` exactly when complete.
    pub fn current_action(&self) -> (a: Action)
        ensures
            a == action_of(self),
    {
        match &self.phase {
            Phase::AwaitOsRelease => Action::ReadOsRelease,
            Phase::AwaitKernels => Action::DiscoverKernels,
            Phase::AwaitSnippets { next } => Action::LoadSnippets { entry: *next },
            Phase::AwaitManager => Action::BuildManager,
            Phase::AwaitMount => Action::MountPartitions,
            Phase::AwaitSync => Action::SyncLoader,
            Phase::Complete { outcome } => Action::Done,
        }
    }

    /// Where the os-release file lives under this root.
    pub fn os_release_path(&self) -> (r: String)
        ensures
            r@ == usr_path(self.root@, "lib/os-release"@),
    {
        resolve_usr(self.root.as_str(), "lib/os-release")
    }

    /// Resolving the OS identity.  Failure here is fatal: without the
    /// identity no boot-loader schema can be selected.
    pub fn on_os_release(&mut self, ev: OsReleaseEvent)
        requires
            old(self).wf(),
            old(self).phase is AwaitOsRelease,
        ensures
            final(self).wf(),
            same_inputs(*final(self), *old(self)),
            final(self).entries@ == old(self).entries@,
            final(self).warnings@ == old(self).warnings@,
            match ev {
                OsReleaseEvent::Parsed(idt) => final(self).os_identity == Some(idt) && final(self).phase is AwaitKernels,
                OsReleaseEvent::ReadFailed(m) => final(self).os_identity == old(self).os_identity
                    && final(self).phase == (Phase::Complete {
                    outcome: Err::<(), BootError>(BootError::Io(m)),
                }),
                OsReleaseEvent::ParseFailed(m) => final(self).os_identity == old(self).os_identity
                    && final(self).phase == (Phase::Complete {
                    outcome: Err::<(), BootError>(BootError::OsRelease(m)),
                }),
            },
    {
        match ev {
            OsReleaseEvent::Parsed(idt) => {
                self.os_identity = Some(idt);
                self.phase = Phase::AwaitKernels;
            },
            OsReleaseEvent::ReadFailed(m) => {
                self.phase = Phase::Complete { outcome: Err(BootError::Io(m)) };
            },
            OsReleaseEvent::ParseFailed(m) => {
                self.phase = Phase::Complete { outcome: Err(BootError::OsRelease(m)) };
            },
        }
    }

    /// The external schema discovered `n` kernels (or failed, fatally).
    /// One entry is assembled per discovered kernel, each tagged with
    /// `moss.fstx=<id>`.
    pub fn on_kernels(&mut self, ev: Result<usize, String>)
        requires
            old(self).wf(),
            old(self).phase is AwaitKernels,
        ensures
            final(self).wf(),
            same_inputs(*final(self), *old(self)),
            final(self).os_identity == old(self).os_identity,
            final(self).warnings@ == old(self).warnings@,
            match ev {
                Ok(n) => {
                    &&& final(self).entries@.len() == n
                    &&& forall|i: int|
                        0 <= i < n ==> entry_fresh(
                            #[trigger] final(self).entries@[i],
                            i,
                            old(self).state_id as int,
                        )
                    &&& if n == 0 {
                        final(self).phase is AwaitManager
                    } else {
                        final(self).phase == (Phase::AwaitSnippets { next: 0 })
                    }
                },
                Err(m) => final(self).entries@ == old(self).entries@ && final(self).phase == (
                Phase::Complete { outcome: Err::<(), BootError>(BootError::Discovery(m)) }),
            },
    {
        match ev {
            Ok(n) => {
                let mut snippet = String::from_str("moss.fstx=");
                let digits = dec_string_signed(self.state_id);
                snippet.append(digits.as_str());
                let mut entries: Vec<BootEntry> = Vec::new();
                let mut i: usize = 0;
                while i < n
                    invariant
                        i <= n,
                        snippet@ == fstx_snippet(self.state_id as int),
                        entries@.len() == i,
                        forall|j: int|
                            0 <= j < i ==> entry_fresh(
                                #[trigger] entries@[j],
                                j,
                                self.state_id as int,
                            ),
                    decreases n - i,
                {
                    let mut cmdline: Vec<CmdlineEntry> = Vec::new();
                    cmdline.push(
                        CmdlineEntry {
                            name: String::from_str("---fstx---"),
                            snippet: snippet.clone(),
                        },
                    );
                    entries.push(
                        BootEntry { kernel_index: i, state_id: self.state_id, cmdline },
                    );
                    i += 1;
                }
                self.entries = entries;
                self.phase = if n == 0 {
                    Phase::AwaitManager
                } else {
                    Phase::AwaitSnippets { next: 0 }
                };
            },
            Err(m) => {
                self.phase = Phase::Complete { outcome: Err(BootError::Discovery(m)) };
            },
        }
    }

    /// Extra snippets for one entry.  Failure is isolated: it is recorded
    /// as a warning, the entry keeps its fstx tag, and every entry still
    /// reaches the boot manager.
    pub fn on_snippets(&mut self, ev: SnippetEvent)
        requires
            old(self).wf(),
            old(self).phase is AwaitSnippets,
        ensures
            final(self).wf(),
            same_inputs(*final(self), *old(self)),
            final(self).os_identity == old(self).os_identity,
            final(self).entries@.len() == old(self).entries@.len(),
            old(self).phase matches Phase::AwaitSnippets { next } ==> {
                &&& (if next + 1 < old(self).entries@.len() {
                    final(self).phase == (Phase::AwaitSnippets { next: (next + 1) as usize })
                } else {
                    final(self).phase is AwaitManager
                })
                &&& forall|j: int|
                    0 <= j < old(self).entries@.len() && j != next
                        ==> #[trigger] final(self).entries@[j] == old(self).entries@[j]
                &&& match ev {
                    SnippetEvent::Loaded(extra) => {
                        &&& final(self).entries@[next as int].cmdline@ == old(self).entries@[next as int].cmdline@ + extra@
                        &&& final(self).entries@[next as int].kernel_index == old(self).entries@[next as int].kernel_index
                        &&& final(self).entries@[next as int].state_id == old(self).entries@[next as int].state_id
                        &&& final(self).warnings@ == old(self).warnings@
                    },
                    SnippetEvent::Failed(m) => {
                        &&& final(self).entries@ == old(self).entries@
                        &&& final(self).warnings@ == old(self).warnings@.push(m)
                    },
                }
            },
    {
        let next = match &self.phase {
            Phase::AwaitSnippets { next } => *next,
            _ => 0,
        };
        match ev {
            SnippetEvent::Loaded(extra) => {
                let mut extra = extra;
                let mut entry = self.entries.remove(next);
                entry.cmdline.append(&mut extra);
                self.entries.insert(next, entry);
                proof {
                    assert(self.entries@ =~= old(self).entries@.update(
                        next as int,
                        self.entries@[next as int],
                    ));
                }
            },
            SnippetEvent::Failed(m) => {
                self.warnings.push(m);
            },
        }
        let n_entries = self.entries.len();
        self.phase = if next + 1 < n_entries {
            Phase::AwaitSnippets { next: next + 1 }
        } else {
            Phase::AwaitManager
        };
    }

    /// Boot-manager construction.  Failure is read as a partition-topology
    /// mismatch — the root is not bootable the way this machine writes boot
    /// configuration — and absorbed as a successful no-op: no mount, no
    /// write.  Success leads to mounting on a native root and straight to
    /// the write on an image root.
    pub fn on_manager(&mut self, ev: Result<(), String>)
        requires
            old(self).wf(),
            old(self).phase is AwaitManager,
        ensures
            final(self).wf(),
            same_inputs(*final(self), *old(self)),
            final(self).os_identity == old(self).os_identity,
            final(self).entries@ == old(self).entries@,
            final(self).warnings@ == old(self).warnings@,
            match ev {
                Ok(u) => (old(self).native ==> final(self).phase is AwaitMount) && (!old(self).native ==> final(self).phase is AwaitSync),
                Err(m) => final(self).phase == (Phase::Complete {
                    outcome: Ok::<(), BootError>(()),
                }),
            },
    {
        match ev {
            Ok(_) => {
                self.phase = if self.native {
                    Phase::AwaitMount
                } else {
                    Phase::AwaitSync
                };
            },
            Err(_) => {
                self.phase = Phase::Complete { outcome: Ok(()) };
            },
        }
    }

    /// Mounting, on a native root only.  From here on failure always
    /// propagates: a partial write to boot configuration must never be
    /// swallowed.
    pub fn on_mount(&mut self, ev: Result<(), String>)
        requires
            old(self).wf(),
            old(self).phase is AwaitMount,
        ensures
            final(self).wf(),
            same_inputs(*final(self), *old(self)),
            final(self).os_identity == old(self).os_identity,
            final(self).entries@ == old(self).entries@,
            final(self).warnings@ == old(self).warnings@,
            match ev {
                Ok(u) => final(self).phase is AwaitSync,
                Err(m) => final(self).phase == (Phase::Complete {
                    outcome: Err::<(), BootError>(BootError::Mount(m)),
                }),
            },
    {
        match ev {
            Ok(_) => {
                self.phase = Phase::AwaitSync;
            },
            Err(m) => {
                self.phase = Phase::Complete { outcome: Err(BootError::Mount(m)) };
            },
        }
    }

    /// The write itself: success completes the synchronization, failure
    /// propagates.
    pub fn on_sync(&mut self, ev: Result<(), String>)
        requires
            old(self).wf(),
            old(self).phase is AwaitSync,
        ensures
            final(self).wf(),
            same_inputs(*final(self), *old(self)),
            final(self).os_identity == old(self).os_identity,
            final(self).entries@ == old(self).entries@,
            final(self).warnings@ == old(self).warnings@,
            match ev {
                Ok(u) => final(self).phase == (Phase::Complete {
                    outcome: Ok::<(), BootError>(()),
                }),
                Err(m) => final(self).phase == (Phase::Complete {
                    outcome: Err::<(), BootError>(BootError::Sync(m)),
                }),
            },
    {
        match ev {
            Ok(_) => {
                self.phase = Phase::Complete { outcome: Ok(()) };
            },
            Err(m) => {
                self.phase = Phase::Complete { outcome: Err(BootError::Sync(m)) };
            },
        }
    }
}

/// The built-in kernel pattern always compiles: construction can only fail
/// on a malformed pattern, and neither built-in pattern is malformed.
pub proof fn lemma_kernel_pattern_parses()
    ensures
        parse_spec(kernel_pattern_text()) is Some,
{
    reveal_strlit("lib/kernel/(version:*)/*");
    let s = kernel_pattern_text();
    assert(parse_rec(s, 24, GroupPoint::Outside) is Some);
    assert(parse_rec(s, 23, GroupPoint::Outside) is Some);
    assert(parse_rec(s, 22, GroupPoint::Outside) is Some);
    assert(parse_rec(s, 21, GroupPoint::AfterStar) is Some);
    assert(parse_rec(s, 20, GroupPoint::AfterColon) is Some);
    assert(parse_rec(s, 19, GroupPoint::Name) is Some);
    assert(parse_rec(s, 18, GroupPoint::Name) is Some);
    assert(parse_rec(s, 17, GroupPoint::Name) is Some);
    assert(parse_rec(s, 16, GroupPoint::Name) is Some);
    assert(parse_rec(s, 15, GroupPoint::Name) is Some);
    assert(parse_rec(s, 14, GroupPoint::Name) is Some);
    assert(parse_rec(s, 13, GroupPoint::Name) is Some);
    assert(parse_rec(s, 12, GroupPoint::NameEmpty) is Some);
    assert(parse_rec(s, 11, GroupPoint::Outside) is Some);
    assert(parse_rec(s, 10, GroupPoint::Outside) is Some);
    assert(parse_rec(s, 9, GroupPoint::Outside) is Some);
    assert(parse_rec(s, 8, GroupPoint::Outside) is Some);
    assert(parse_rec(s, 7, GroupPoint::Outside) is Some);
    assert(parse_rec(s, 6, GroupPoint::Outside) is Some);
    assert(parse_rec(s, 5, GroupPoint::Outside) is Some);
    assert(parse_rec(s, 4, GroupPoint::Outside) is Some);
    assert(parse_rec(s, 3, GroupPoint::Outside) is Some);
    assert(parse_rec(s, 2, GroupPoint::Outside) is Some);
    assert(parse_rec(s, 1, GroupPoint::Outside) is Some);
    assert(parse_rec(s, 0, GroupPoint::Outside) is Some);
}

/// The built-in boot-asset pattern always compiles.
pub proof fn lemma_boot_pattern_parses()
    ensures
        parse_spec(boot_pattern_text()) is Some,
{
    reveal_strlit("lib*/systemd/boot/efi/*.efi");
    let s = boot_pattern_text();
    assert(parse_rec(s, 27, GroupPoint::Outside) is Some);
    assert(parse_rec(s, 26, GroupPoint::Outside) is Some);
    assert(parse_rec(s, 25, GroupPoint::Outside) is Some);
    assert(parse_rec(s, 24, GroupPoint::Outside) is Some);
    assert(parse_rec(s, 23, GroupPoint::Outside) is Some);
    assert(parse_rec(s, 22, GroupPoint::Outside) is Some);
    assert(parse_rec(s, 21, GroupPoint::Outside) is Some);
    assert(parse_rec(s, 20, GroupPoint::Outside) is Some);
    assert(parse_rec(s, 19, GroupPoint::Outside) is Some);
    assert(parse_rec(s, 18, GroupPoint::Outside) is Some);
    assert(parse_rec(s, 17, GroupPoint::Outside) is Some);
    assert(parse_rec(s, 16, GroupPoint::Outside) is Some);
    assert(parse_rec(s, 15, GroupPoint::Outside) is Some);
    assert(parse_rec(s, 14, GroupPoint::Outside) is Some);
    assert(parse_rec(s, 13, GroupPoint::Outside) is Some);
    assert(parse_rec(s, 12, GroupPoint::Outside) is Some);
    assert(parse_rec(s, 11, GroupPoint::Outside) is Some);
    assert(parse_rec(s, 10, GroupPoint::Outside) is Some);
    assert(parse_rec(s, 9, GroupPoint::Outside) is Some);
    assert(parse_rec(s, 8, GroupPoint::Outside) is Some);
    assert(parse_rec(s, 7, GroupPoint::Outside) is Some);
    assert(parse_rec(s, 6, GroupPoint::Outside) is Some);
    assert(parse_rec(s, 5, GroupPoint::Outside) is Some);
    assert(parse_rec(s, 4, GroupPoint::Outside) is Some);
    assert(parse_rec(s, 3, GroupPoint::Outside) is Some);
    assert(parse_rec(s, 2, GroupPoint::Outside) is Some);
    assert(parse_rec(s, 1, GroupPoint::Outside) is Some);
    assert(parse_rec(s, 0, GroupPoint::Outside) is Some);
}

/// Construction never fails: the only failure mode is a malformed built-in
/// pattern, and both built-in patterns compile.
pub proof fn lemma_new_never_fails(r: Result<Synchronizer, BootError>)
    requires
        r is Err ==> (parse_spec(kernel_pattern_text()) is None || parse_spec(
            boot_pattern_text(),
        ) is None),
    ensures
        r is Ok,
{
    lemma_kernel_pattern_parses();
    lemma_boot_pattern_parses();
}

/// The action a phase calls for.
pub open spec fn action_of(m: &Synchronizer) -> Action {
    match m.phase {
        Phase::AwaitOsRelease => Action::ReadOsRelease,
        Phase::AwaitKernels => Action::DiscoverKernels,
        Phase::AwaitSnippets { next } => (Action::LoadSnippets { entry: next }),
        Phase::AwaitManager => Action::BuildManager,
        Phase::AwaitMount => Action::MountPartitions,
        Phase::AwaitSync => Action::SyncLoader,
        Phase::Complete { outcome } => Action::Done,
    }
}

/// A state shipping no kernels, or no boot-loader assets, never writes: the
/// machine is complete and asks for nothing further.
pub proof fn lemma_missing_assets_no_writes(m: &Synchronizer)
    requires
        m.wf(),
        m.kernels@.len() == 0 || m.boot_assets@.len() == 0,
    ensures
        m.phase is Complete,
        action_of(m) == Action::Done,
{
}

/// Every assembled boot entry is attributable to exactly one generation:
/// its first command line fragment is the exact string `moss.fstx=<id>` for
/// the owning state id.
pub proof fn lemma_entries_tagged(m: &Synchronizer, i: int)
    requires
        m.wf(),
        0 <= i < m.entries@.len(),
    ensures
        m.entries@[i].state_id == m.state_id,
        m.entries@[i].cmdline@.len() >= 1,
        m.entries@[i].cmdline@[0].snippet@ == fstx_snippet(m.state_id as int),
{
}

/// Mounting is only ever requested on a native root; an image root goes
/// straight to the write.
pub proof fn lemma_mount_only_native(m: &Synchronizer)
    requires
        m.wf(),
        action_of(m) == Action::MountPartitions,
    ensures
        m.native,
{
}

} // verus!

use vstd::prelude::*;

verus! {

/// The ways that locating, loading and wiring up a plugin library can fail.
#[derive(Clone, Copy, Debug, PartialEq, Eq, Structural)]
pub enum CreatePluginError {
    /// The shadow directory for library copies could not be created.
    CouldNotCreateShadowDir,
    /// The loaded library does not export the expected constructor symbol.
    NoEntryPoint,
    /// The library file could not be opened as a dynamic library.
    AddLibraryError,
    /// A filesystem path could not be represented as a string.
    BadFileString,
    /// A lock around shared plugin state was poisoned by a panicking holder.
    MutexError,
    /// The configured library path has no parent directory.
    NoDylibParentDir,
    /// The environment variable naming the library path is not set.
    EnvNotSet,
    /// No checksum has been recorded for the loaded library.
    NoChecksum,
}

/// The unit held in the shared slot: a library handle, the plugin instance
/// manufactured from exactly that handle, and the checksum of the file the
/// handle was loaded from. It is only ever installed or replaced wholesale,
/// so the three parts can never be observed in a mixed combination.
///
/// Field order is load-bearing: fields drop in declaration order, so the
/// plugin instance is destroyed strictly before the library handle whose
/// code its destructor runs. Keep `plugin` above `lib`.
pub struct Triad<L, P> {
    pub plugin: P,
    pub lib: L,
    pub checksum: String,
}

/// The three-state notification a reload driver reports: the moments just
/// before a swap, just after a candidate library has been opened, and a
/// load attempt that already failed inside the driver.
pub enum ReloadEvent<L, P> {
    /// A swap is about to happen: a chance to quiesce.
    Before,
    /// A candidate library was opened. Carries the new handle, the result
    /// of invoking the constructor symbol in it, and the bytes of the
    /// on-disk library file for checksumming.
    After {
        lib: L,
        plugin: Result<P, CreatePluginError>,
        dylib_bytes: Result<Vec<u8>, CreatePluginError>,
    },
    /// The driver could not load the new library at all.
    ReloadFailed,
}

/// What a reload attempt did to the shared slot.
#[derive(Clone, Copy, Debug, PartialEq, Eq, Structural)]
pub enum ReloadOutcome {
    /// The event asked for no slot change.
    NoAction,
    /// Invoking the constructor symbol failed; the old triad stays live.
    PluginCreationFailed(CreatePluginError),
    /// The library file's bytes could not be read; the old triad stays live.
    ChecksumUnavailable(CreatePluginError),
    /// The file's checksum equals the recorded one; the candidate was
    /// discarded and the old triad stays live.
    Unchanged,
    /// A genuine change: the candidate triad replaced the old one wholesale.
    Swapped,
}

/// The CRC64 digest of a byte sequence, as the hashing crate formats it:
/// a function of the bytes alone.
pub uninterp spec fn crc64_iso_hex(bytes: Seq<u8>) -> Seq<char>;

/// Relies on checksums::hash_reader with Algorithm::CRC64: the digest
/// depends on the bytes read alone, and is formatted zero-padded to
/// Algorithm::CRC64's hex length of sixteen digits.
#[verifier::external_body]
fn hash_bytes_crc64(bytes: &Vec<u8>) -> (r: String)
    ensures
        r@ == crc64_iso_hex(bytes@),
        r@.len() == 16,
{
    checksums::hash_reader(&mut std::io::Cursor::new(bytes.as_slice()), checksums::Algorithm::CRC64)
}

/// Whether a candidate whose file hashes to `new_checksum` warrants a swap:
/// only when the slot is empty or records a different checksum.
pub open spec fn spec_needs_reload<L, P>(
    slot: Option<Triad<L, P>>,
    new_checksum: Seq<char>,
) -> bool {
    match slot {
        None => true,
        Some(t) => t.checksum@ != new_checksum,
    }
}

/// How the slot after a reload decision relates to the slot before it,
/// given the candidate parts: swapped wholesale on a changed checksum,
/// untouched otherwise.
pub open spec fn spec_slot_after<L, P>(
    before: Option<Triad<L, P>>,
    after: Option<Triad<L, P>>,
    lib: L,
    plugin: P,
    new_checksum: Seq<char>,
) -> bool {
    if spec_needs_reload(before, new_checksum) {
        after matches Some(t) && t.lib == lib && t.plugin == plugin && t.checksum@
            == new_checksum
    } else {
        after == before
    }
}

/// The whole contract of one reload attempt: which outcome each candidate
/// yields, and what the slot holds afterwards.
pub open spec fn spec_after_outcome<L, P>(
    before: Option<Triad<L, P>>,
    after: Option<Triad<L, P>>,
    lib: L,
    plugin: Result<P, CreatePluginError>,
    dylib_bytes: Result<Vec<u8>, CreatePluginError>,
    r: ReloadOutcome,
) -> bool {
    match plugin {
        Err(e) => after == before && r == ReloadOutcome::PluginCreationFailed(e),
        Ok(p) => match dylib_bytes {
            Err(e) => after == before && r == ReloadOutcome::ChecksumUnavailable(e),
            Ok(b) => {
                &&& spec_slot_after(before, after, lib, p, crc64_iso_hex(b@))
                &&& (r == ReloadOutcome::Swapped <==> spec_needs_reload(
                    before,
                    crc64_iso_hex(b@),
                ))
                &&& (r == ReloadOutcome::Swapped || r == ReloadOutcome::Unchanged)
            },
        },
    }
}

/// The shared slot: at most one live triad, or none before the first
/// successful load.
pub struct KlebsPluginInterface<L, P> {
    slot: Option<Triad<L, P>>,
}

impl<L, P> KlebsPluginInterface<L, P> {
    /// The slot's current contents, for contracts.
    pub closed spec fn spec_slot(&self) -> Option<Triad<L, P>> {
        self.slot
    }

    /// Builds the interface from the results of the three initial load
    /// steps: opening the library, invoking its constructor symbol, and
    /// checksumming its file. The first failed step decides the error;
    /// only a fully successful sequence yields a live slot.
    pub fn new(
        lib: Result<L, CreatePluginError>,
        plugin: Result<P, CreatePluginError>,
        checksum: Result<String, CreatePluginError>,
    ) -> (r: Result<Self, CreatePluginError>)
        ensures
            lib matches Err(e) ==> r matches Err(e2) && e2 == e,
            lib is Ok ==> (plugin matches Err(e) ==> r matches Err(e2) && e2 == e),
            lib is Ok && plugin is Ok ==> (checksum matches Err(e) ==> r matches Err(e2) && e2
                == e),
            lib matches Ok(l) ==> (plugin matches Ok(p) ==> (checksum matches Ok(c) ==> (r
                matches Ok(iface) && iface.spec_slot() == Some(
                Triad { plugin: p, lib: l, checksum: c },
            )))),
    {
        match lib {
            Err(e) => Err(e),
            Ok(l) => match plugin {
                Err(e) => Err(e),
                Ok(p) => match checksum {
                    Err(e) => Err(e),
                    Ok(c) => Ok(KlebsPluginInterface {
                        slot: Some(Triad { plugin: p, lib: l, checksum: c }),
                    }),
                },
            },
        }
    }

    /// Read access to the live plugin instance, if any.
    pub fn plugin(&self) -> (r: Option<&P>)
        ensures
            self.spec_slot() matches Some(t) ==> r matches Some(p) && *p == t.plugin,
            self.spec_slot() is None ==> r is None,
    {
        match &self.slot {
            Some(t) => Some(&t.plugin),
            None => None,
        }
    }

    /// The checksum recorded at the last successful load.
    pub fn old_checksum(&self) -> (r: &String)
        requires
            self.spec_slot() is Some,
        ensures
            self.spec_slot() matches Some(t) && *r == t.checksum,
    {
        match &self.slot {
            Some(t) => &t.checksum,
            None => vstd::pervasive::unreached(),
        }
    }

    /// Whether a candidate whose file hashes to `new_checksum` warrants a
    /// swap. This comparison is the sole gate for reloading.
    pub fn needs_reload(&self, new_checksum: &String) -> (r: bool)
        ensures
            r == spec_needs_reload(self.spec_slot(), new_checksum@),
    {
        match &self.slot {
            None => true,
            Some(t) => !(t.checksum == *new_checksum),
        }
    }

    /// The commit step: replaces the slot wholesale by the candidate triad
    /// when its checksum differs from the recorded one, and leaves the slot
    /// untouched (discarding the candidate) when it does not.
    pub fn apply_candidate(&mut self, lib: L, plugin: P, new_checksum: String) -> (swapped:
        bool)
        ensures
            swapped == spec_needs_reload(old(self).spec_slot(), new_checksum@),
            spec_slot_after(
                old(self).spec_slot(),
                final(self).spec_slot(),
                lib,
                plugin,
                new_checksum@,
            ),
    {
        if self.needs_reload(&new_checksum) {
            self.slot = Some(Triad { plugin, lib, checksum: new_checksum });
            true
        } else {
            false
        }
    }

    /// One reload attempt over a fully built candidate: a failed
    /// constructor invocation or an unreadable library file leaves the slot
    /// byte-for-byte as it was; otherwise the checksum gate decides between
    /// discarding the candidate and swapping it in wholesale.
    pub fn maybe_reload_lib(
        &mut self,
        lib: L,
        plugin: Result<P, CreatePluginError>,
        dylib_bytes: Result<Vec<u8>, CreatePluginError>,
    ) -> (r: ReloadOutcome)
        requires
            old(self).spec_slot() is Some,
        ensures
            spec_after_outcome(
                old(self).spec_slot(),
                final(self).spec_slot(),
                lib,
                plugin,
                dylib_bytes,
                r,
            ),
    {
        match plugin {
            Err(e) => ReloadOutcome::PluginCreationFailed(e),
            Ok(p) => match dylib_bytes {
                Err(e) => ReloadOutcome::ChecksumUnavailable(e),
                Ok(b) => {
                    let new_checksum = compute_dylib_checksum(&b);
                    if self.apply_candidate(lib, p, new_checksum) {
                        ReloadOutcome::Swapped
                    } else {
                        ReloadOutcome::Unchanged
                    }
                },
            },
        }
    }

    /// The reload entry point: dispatches one driver notification. Only an
    /// `After` event can touch the slot, and then only as one wholesale,
    /// checksum-gated swap; `Before` and `ReloadFailed` leave every part of
    /// the state exactly as it was.
    pub fn maybe_reload_plugin(&mut self, event: ReloadEvent<L, P>) -> (r: ReloadOutcome)
        requires
            event is After ==> old(self).spec_slot() is Some,
        ensures
            event is Before ==> *final(self) == *old(self) && r == ReloadOutcome::NoAction,
            event is ReloadFailed ==> *final(self) == *old(self) && r
                == ReloadOutcome::NoAction,
            event matches ReloadEvent::After { lib, plugin, dylib_bytes }
                ==> spec_after_outcome(
                old(self).spec_slot(),
                final(self).spec_slot(),
                lib,
                plugin,
                dylib_bytes,
                r,
            ),
    {
        match event {
            ReloadEvent::Before => ReloadOutcome::NoAction,
            ReloadEvent::ReloadFailed => ReloadOutcome::NoAction,
            ReloadEvent::After { lib, plugin, dylib_bytes } => self.maybe_reload_lib(
                lib,
                plugin,
                dylib_bytes,
            ),
        }
    }
}

/// The digest of the on-disk library file's bytes, used purely as a cheap
/// proxy for "did the file change": a fixed-size digest of sixteen hex
/// digits.
pub fn compute_dylib_checksum(dylib_bytes: &Vec<u8>) -> (r: String)
    ensures
        r@ == crc64_iso_hex(dylib_bytes@),
        r@.len() == 16,
{
    hash_bytes_crc64(dylib_bytes)
}

/// The fixed name of the constructor symbol a plugin library must export:
/// the one bit-exact contract across the foreign boundary.
pub fn default_entrypoint_symbol_name() -> (r: &'static str)
    ensures
        r@ == "create_klebs_fix_baby_rust_plugin"@,
{
    "create_klebs_fix_baby_rust_plugin"
}

/// Law: the slot only ever changes wholesale. After any reload decision it
/// is either exactly the slot from before, or a triad made of exactly the
/// candidate's handle, instance and checksum; no mixture of old and new
/// parts can be observed.
pub proof fn lemma_swap_is_wholesale<L, P>(
    before: Option<Triad<L, P>>,
    after: Option<Triad<L, P>>,
    lib: L,
    plugin: P,
    new_checksum: Seq<char>,
)
    requires
        spec_slot_after(before, after, lib, plugin, new_checksum),
    ensures
        after == before || (after matches Some(t) && t.lib == lib && t.plugin == plugin
            && t.checksum@ == new_checksum),
{
}

/// Law: a candidate whose checksum equals the recorded one is always
/// discarded: the slot after the decision is exactly the slot before it.
pub proof fn lemma_unchanged_checksum_is_noop<L, P>(
    before: Option<Triad<L, P>>,
    after: Option<Triad<L, P>>,
    lib: L,
    plugin: P,
    new_checksum: Seq<char>,
)
    requires
        before matches Some(t) && t.checksum@ == new_checksum,
        spec_slot_after(before, after, lib, plugin, new_checksum),
    ensures
        after == before,
{
}

/// Law: a failed reload attempt leaves zero observable trace. If the
/// constructor invocation or the read of the library file failed, the slot
/// after the attempt is exactly the slot before it.
pub proof fn lemma_failed_attempt_preserves_slot<L, P>(
    before: Option<Triad<L, P>>,
    after: Option<Triad<L, P>>,
    lib: L,
    plugin: Result<P, CreatePluginError>,
    dylib_bytes: Result<Vec<u8>, CreatePluginError>,
    r: ReloadOutcome,
)
    requires
        spec_after_outcome(before, after, lib, plugin, dylib_bytes, r),
        plugin is Err || dylib_bytes is Err,
    ensures
        after == before,
{
}

/// Law: reload decisions over one and the same file checksum are
/// idempotent: once a first decision has run, a second decision for the
/// same checksum leaves the slot exactly where the first left it.
pub proof fn lemma_reload_idempotent<L, P>(
    slot0: Option<Triad<L, P>>,
    slot1: Option<Triad<L, P>>,
    slot2: Option<Triad<L, P>>,
    lib1: L,
    lib2: L,
    plugin1: P,
    plugin2: P,
    new_checksum: Seq<char>,
)
    requires
        spec_slot_after(slot0, slot1, lib1, plugin1, new_checksum),
        spec_slot_after(slot1, slot2, lib2, plugin2, new_checksum),
    ensures
        slot2 == slot1,
{
}

} // verus!

use vstd::prelude::*;

use crate::entities::{
    spec_chapter_from_info, spec_manga_from_info, Chapter, Manga, Source,
};
use crate::errors::{DispatchFailure, SourceError};
use crate::index::SourceDto;
use crate::models::{ChapterInfo, MangaInfo};
use crate::registry::{Handle, SourceBus, SourceEntry};
use crate::version::{spec_parse_version, spec_version_lt, has_newer};

verus! {

/// The first descriptor in the manifest with the given id, if any.
pub open spec fn spec_find_index(index: Seq<SourceDto>, id: i64) -> Option<SourceDto>
    decreases index.len(),
{
    if index.len() == 0 {
        None
    } else if index[0].id == id {
        Some(index[0])
    } else {
        spec_find_index(index.drop_first(), id)
    }
}

/// Whether a descriptor may be loaded by a host with the given build and
/// interface identity: exact string equality on both, deliberately strict,
/// because a mismatch is binary incompatibility, not a behavioral nuance.
pub open spec fn spec_compatible(d: SourceDto, host_rustc: Seq<char>, host_lib: Seq<char>) -> bool {
    d.rustc_version@ == host_rustc && d.lib_version@ == host_lib
}

/// The installed record made from a descriptor: the loaded package's own
/// metadata, with `has_update` false.
pub open spec fn spec_source_of(d: SourceDto) -> Source {
    Source {
        id: d.id,
        name: d.name,
        url: d.url,
        version: d.version,
        rustc_version: d.rustc_version,
        lib_version: d.lib_version,
        icon: d.icon,
        has_update: false,
    }
}

/// The sources a repository manifest offers to a registry: the descriptors
/// whose id is not installed, in manifest order, each reported with
/// `has_update` false.
pub open spec fn spec_available(index: Seq<SourceDto>, m: Map<i64, SourceEntry>) -> Seq<Source>
    decreases index.len(),
{
    if index.len() == 0 {
        Seq::empty()
    } else {
        let rest = spec_available(index.drop_first(), m);
        if m.contains_key(index[0].id) {
            rest
        } else {
            seq![spec_source_of(index[0])] + rest
        }
    }
}

/// Every source reported available is absent from the registry and carries
/// no update mark: an available-but-not-installed entry has no update
/// concept.
pub proof fn lemma_available_not_installed(index: Seq<SourceDto>, m: Map<i64, SourceEntry>)
    ensures
        forall|i: int|
            0 <= i < spec_available(index, m).len() ==> !m.contains_key(
                #[trigger] spec_available(index, m)[i].id,
            ) && spec_available(index, m)[i].has_update == false,
    decreases index.len(),
{
    if index.len() > 0 {
        lemma_available_not_installed(index.drop_first(), m);
        let whole = spec_available(index, m);
        let rest = spec_available(index.drop_first(), m);
        assert forall|i: int| 0 <= i < whole.len() implies !m.contains_key(
            #[trigger] whole[i].id,
        ) && whole[i].has_update == false by {
            if m.contains_key(index[0].id) {
                assert(whole[i] == rest[i]);
                assert(!m.contains_key(rest[i].id));
            } else if i == 0 {
                assert(whole[0] == spec_source_of(index[0]));
            } else {
                assert(whole[i] == rest[i - 1]);
                assert(!m.contains_key(rest[i - 1].id));
            }
        }
    }
}

/// Two racing installs for one absent id, serialized by the registry's
/// exclusive section: after the first commit the registry holds the id, so
/// by `commit_install`'s contract the second is rejected with
/// `AlreadyInstalled` and changes nothing — exactly one succeeds, and the
/// registry holds exactly the entry the winner made.
pub proof fn lemma_install_exclusive(
    m0: Map<i64, SourceEntry>,
    id: i64,
    winner: SourceEntry,
)
    requires
        !m0.contains_key(id),
    ensures
        m0.insert(id, winner).contains_key(id),
        m0.insert(id, winner)[id] == winner,
        forall|k: i64|
            k != id ==> #[trigger] m0.insert(id, winner).contains_key(k) == m0.contains_key(k),
{
}

/// The error a dispatch failure surfaces as.
pub open spec fn spec_dispatch_error(f: DispatchFailure) -> SourceError {
    match f {
        DispatchFailure::Execution => SourceError::ExecutionError,
        DispatchFailure::Protocol => SourceError::ProtocolError,
    }
}

impl Source {
    /// The installed record for a descriptor whose package was just loaded.
    pub fn from_dto(d: &SourceDto) -> (r: Source)
        ensures
            r == spec_source_of(*d),
    {
        Source {
            id: d.id,
            name: d.name.clone(),
            url: d.url.clone(),
            version: d.version.clone(),
            rustc_version: d.rustc_version.clone(),
            lib_version: d.lib_version.clone(),
            icon: d.icon.clone(),
            has_update: false,
        }
    }
}

/// The lifecycle orchestrator and dispatch facade over one extension
/// registry.  It is constructed once, at process start, with the host's
/// build and interface identity, and is handed by reference to whoever
/// needs it; the registry behind it is never reachable except through it.
///
/// The asynchronous outside work — fetching the manifest, materializing and
/// releasing plugin instances, running a plugin call — happens between the
/// methods: the caller fetches and decodes the manifest before a lifecycle
/// step, materializes a handle between `prepare_install` and
/// `commit_install`, and runs the plugin between `resolve` and the
/// normalizing dispatch methods.
pub struct SourceRepository {
    bus: SourceBus,
    host_rustc_version: String,
    host_lib_version: String,
}

impl View for SourceRepository {
    type V = Map<i64, SourceEntry>;

    closed spec fn view(&self) -> Map<i64, SourceEntry> {
        self.bus@
    }
}

impl SourceRepository {
    /// The host's build identity.
    pub closed spec fn host_rustc(self) -> Seq<char> {
        self.host_rustc_version@
    }

    /// The host's plugin-interface identity.
    pub closed spec fn host_lib(self) -> Seq<char> {
        self.host_lib_version@
    }

    /// The installed records in ascending id order.
    pub closed spec fn sources(self) -> Seq<Source> {
        self.bus.sources()
    }

    /// Every installed entry passed the compatibility gate against this
    /// host: the registry never holds a package built for another host.
    pub closed spec fn gatekept(self) -> bool {
        forall|id: i64|
            self@.contains_key(id) ==> spec_compatible_source(
                #[trigger] self@[id].source,
                self.host_rustc(),
                self.host_lib(),
            )
    }

    /// Well-formedness: the registry is sorted and gatekept.
    pub closed spec fn wf(self) -> bool {
        self.bus.wf() && self.gatekept()
    }

    /// The safety invariant stated for callers: whatever
    /// is installed in a well-formed repository matches the host identity
    /// exactly.
    pub proof fn lemma_gatekept(self)
        requires
            self.wf(),
        ensures
            forall|id: i64|
                self@.contains_key(id) ==> spec_compatible_source(
                    #[trigger] self@[id].source,
                    self.host_rustc(),
                    self.host_lib(),
                ),
    {
    }

    /// The listing is exactly the registry: every element of `sources()` —
    /// what `installed_sources` returns — is the stored record for its id,
    /// and every installed id appears among them.
    pub proof fn lemma_sources_complete(self)
        requires
            self.wf(),
        ensures
            forall|i: int|
                0 <= i < self.sources().len() ==> self@.contains_key(
                    #[trigger] self.sources()[i].id,
                ) && self@[self.sources()[i].id].source == self.sources()[i],
            forall|id: i64|
                #[trigger] self@.contains_key(id) ==> exists|i: int|
                    0 <= i < self.sources().len() && #[trigger] self.sources()[i].id == id,
    {
        self.bus.lemma_sources_complete();
        assert forall|id: i64| #[trigger] self@.contains_key(id) implies exists|i: int|
            0 <= i < self.sources().len() && #[trigger] self.sources()[i].id == id by {
            assert(self.bus@.contains_key(id));
            let i = choose|i: int|
                0 <= i < self.bus.sources().len() && #[trigger] self.bus.sources()[i].id == id;
            assert(self.sources()[i].id == id);
        }
    }

    /// A fresh orchestrator over an empty registry for a host with the
    /// given build and interface identity.
    pub fn new(host_rustc_version: String, host_lib_version: String) -> (r: SourceRepository)
        ensures
            r.wf(),
            r@ == Map::<i64, SourceEntry>::empty(),
            r.sources() == Seq::<Source>::empty(),
            r.host_rustc() == host_rustc_version@,
            r.host_lib() == host_lib_version@,
    {
        SourceRepository { bus: SourceBus::new(), host_rustc_version, host_lib_version }
    }

    /// Whether a source with this id is installed.
    pub fn exists_source(&self, id: i64) -> (r: bool)
        requires
            self.wf(),
        ensures
            r == self@.contains_key(id),
    {
        self.bus.contains(id)
    }

    /// Every installed source, ascending by id whatever the registration
    /// order; reading mutates nothing, so the result is the same on every
    /// call until the registry changes.
    pub fn installed_sources(&self) -> (r: Vec<Source>)
        requires
            self.wf(),
        ensures
            r@ == self.sources(),
            forall|i: int, j: int| 0 <= i < j < r@.len() ==> r@[i].id < r@[j].id,
    {
        self.bus.list()
    }

    /// The sources the manifest offers beyond what is installed, in
    /// manifest order, each with `has_update` false.
    pub fn available_sources(&self, index: &Vec<SourceDto>) -> (r: Vec<Source>)
        requires
            self.wf(),
        ensures
            r@ == spec_available(index@, self@),
    {
        let mut out: Vec<Source> = Vec::new();
        proof {
            assert(index@.subrange(0, index@.len() as int) =~= index@);
        }
        let mut i: usize = 0;
        while i < index.len()
            invariant
                self.wf(),
                0 <= i <= index@.len(),
                out@ + spec_available(index@.subrange(i as int, index@.len() as int), self@)
                    =~= spec_available(index@, self@),
            decreases index@.len() - i,
        {
            let ghost tail = index@.subrange(i as int, index@.len() as int);
            proof {
                assert(tail[0] == index@[i as int]);
                assert(tail.drop_first() =~= index@.subrange(i as int + 1, index@.len() as int));
            }
            if !self.bus.contains(index[i].id) {
                out.push(Source::from_dto(&index[i]));
            }
            i += 1;
        }
        proof {
            assert(index@.subrange(index@.len() as int, index@.len() as int)
                =~= Seq::<SourceDto>::empty());
            assert(out@ =~= spec_available(index@, self@));
        }
        out
    }

    /// The installed record for `id`, or `NotFound`.
    pub fn get_source_by_id(&self, id: i64) -> (r: Result<Source, SourceError>)
        requires
            self.wf(),
        ensures
            self@.contains_key(id) ==> (r matches Ok(s) && s == self@[id].source),
            !self@.contains_key(id) ==> r == Err::<Source, SourceError>(SourceError::NotFound),
    {
        self.bus.get_source_info(id)
    }

    /// Whether this descriptor may be loaded here: exact equality of its
    /// build and interface identity with the host's.
    pub fn is_compatible(&self, d: &SourceDto) -> (r: bool)
        ensures
            r == spec_compatible(*d, self.host_rustc(), self.host_lib()),
    {
        d.rustc_version == self.host_rustc_version && d.lib_version == self.host_lib_version
    }

    /// The first descriptor for `id` in the fetched manifest, if any.
    pub fn find_descriptor(index: &Vec<SourceDto>, id: i64) -> (r: Option<SourceDto>)
        ensures
            r == spec_find_index(index@, id),
    {
        proof {
            assert(index@.subrange(0, index@.len() as int) =~= index@);
        }
        let mut i: usize = 0;
        while i < index.len()
            invariant
                0 <= i <= index@.len(),
                spec_find_index(index@, id) == spec_find_index(
                    index@.subrange(i as int, index@.len() as int),
                    id,
                ),
            decreases index@.len() - i,
        {
            let ghost tail = index@.subrange(i as int, index@.len() as int);
            proof {
                assert(tail[0] == index@[i as int]);
                assert(tail.drop_first() =~= index@.subrange(i as int + 1, index@.len() as int));
            }
            if index[i].id == id {
                return Some(index[i].duplicate());
            }
            i += 1;
        }
        proof {
            assert(index@.subrange(index@.len() as int, index@.len() as int)
                =~= Seq::<SourceDto>::empty());
        }
        None
    }

    /// The read-only half of `install`: decides whether the install may
    /// proceed, mutating nothing.  It yields the descriptor whose package
    /// the caller must materialize, exactly when the id is absent, listed
    /// in the manifest, and compatible with this host; otherwise the exact
    /// rejection, in that order of checks.
    pub fn prepare_install(&self, index: &Vec<SourceDto>, id: i64) -> (r: Result<
        SourceDto,
        SourceError,
    >)
        requires
            self.wf(),
        ensures
            self@.contains_key(id) ==> r == Err::<SourceDto, SourceError>(
                SourceError::AlreadyInstalled,
            ),
            !self@.contains_key(id) && spec_find_index(index@, id) is None ==> r == Err::<
                SourceDto,
                SourceError,
            >(SourceError::NotFoundInIndex),
            !self@.contains_key(id) ==> (spec_find_index(index@, id) matches Some(d) ==> (
            if spec_compatible(d, self.host_rustc(), self.host_lib()) {
                r == Ok::<SourceDto, SourceError>(d)
            } else {
                r == Err::<SourceDto, SourceError>(SourceError::IncompatibleVersion)
            })),
    {
        if self.bus.contains(id) {
            return Err(SourceError::AlreadyInstalled);
        }
        let descriptor = match Self::find_descriptor(index, id) {
            Some(d) => d,
            None => {
                return Err(SourceError::NotFoundInIndex);
            },
        };
        if !self.is_compatible(&descriptor) {
            return Err(SourceError::IncompatibleVersion);
        }
        Ok(descriptor)
    }

    /// The committing half of `install` and of `update`'s re-install:
    /// registers a fully materialized plugin.  Compatibility is decided anew, so
    /// an incompatible package can never enter the registry, and an id that
    /// appeared meanwhile is rejected with `AlreadyInstalled` — of two
    /// racing installs for one absent id, the one serialized second fails
    /// and the registry keeps the single entry the first made.  On any
    /// rejection the registry is unchanged and the caller still owns the
    /// handle.
    pub fn commit_install(&mut self, descriptor: &SourceDto, handle: Handle) -> (r: Result<
        (),
        SourceError,
    >)
        requires
            old(self).wf(),
        ensures
            final (self).wf(),
            final (self).host_rustc() == old(self).host_rustc(),
            final (self).host_lib() == old(self).host_lib(),
            !spec_compatible(*descriptor, old(self).host_rustc(), old(self).host_lib()) ==> r
                == Err::<(), SourceError>(SourceError::IncompatibleVersion) && final (self)@ == old(
                self,
            )@,
            spec_compatible(*descriptor, old(self).host_rustc(), old(self).host_lib()) && old(
                self,
            )@.contains_key(descriptor.id) ==> r == Err::<(), SourceError>(
                SourceError::AlreadyInstalled,
            ) && final (self)@ == old(self)@,
            spec_compatible(*descriptor, old(self).host_rustc(), old(self).host_lib()) && !old(
                self,
            )@.contains_key(descriptor.id) ==> r == Ok::<(), SourceError>(()) && final (self)@
                == old(self)@.insert(
                descriptor.id,
                SourceEntry { source: spec_source_of(*descriptor), handle },
            ),
    {
        if !self.is_compatible(descriptor) {
            return Err(SourceError::IncompatibleVersion);
        }
        let source = Source::from_dto(descriptor);
        let result = self.bus.register(source, handle);
        match result {
            Ok(()) => {
                proof {
                    assert(self@ == old(self)@.insert(
                        descriptor.id,
                        SourceEntry { source: spec_source_of(*descriptor), handle },
                    ));
                    assert forall|id: i64| self@.contains_key(id) implies spec_compatible_source(
                        #[trigger] self@[id].source,
                        self.host_rustc(),
                        self.host_lib(),
                    ) by {
                        if id == descriptor.id {
                            assert(self@[id] == SourceEntry {
                                source: spec_source_of(*descriptor),
                                handle,
                            });
                        } else {
                            assert(old(self)@.contains_key(id));
                            assert(self@[id] == old(self)@[id]);
                        }
                    }
                    assert(self.gatekept());
                }
                Ok(())
            },
            Err(e) => {
                proof {
                    assert forall|id: i64| self@.contains_key(id) implies spec_compatible_source(
                        #[trigger] self@[id].source,
                        self.host_rustc(),
                        self.host_lib(),
                    ) by {
                        assert(old(self)@.contains_key(id));
                        assert(self@[id] == old(self)@[id]);
                    }
                    assert(self.gatekept());
                }
                Err(e)
            },
        }
    }

    /// `Installed -> Absent`: removes the entry for `id` and yields its
    /// handle for the caller to release; `NotFound` and no change when the
    /// id is absent.  `update` uses this as the retiring half of its
    /// unregister-then-install pair, which is not atomic: when the
    /// re-install half fails afterwards, the id stays absent.
    pub fn uninstall_source(&mut self, id: i64) -> (r: Result<Handle, SourceError>)
        requires
            old(self).wf(),
        ensures
            final (self).wf(),
            final (self).host_rustc() == old(self).host_rustc(),
            final (self).host_lib() == old(self).host_lib(),
            !old(self)@.contains_key(id) ==> r == Err::<Handle, SourceError>(SourceError::NotFound)
                && final (self)@ == old(self)@ && final (self).sources() == old(self).sources(),
            old(self)@.contains_key(id) ==> r == Ok::<Handle, SourceError>(old(self)@[id].handle)
                && final (self)@ == old(self)@.remove(id) && !final (self)@.contains_key(id),
    {
        let r = self.bus.unregister(id);
        proof {
            if old(self)@.contains_key(id) {
                assert forall|k: i64| self@.contains_key(k) implies spec_compatible_source(
                    #[trigger] self@[k].source,
                    self.host_rustc(),
                    self.host_lib(),
                ) by {
                    assert(old(self)@.contains_key(k));
                    assert(self@[k] == old(self)@[k]);
                }
            }
        }
        r
    }

    /// The read-only half of `update`: decides whether the update may
    /// proceed, mutating nothing.  It yields the descriptor exactly when
    /// the id is installed, listed in the manifest, strictly newer there
    /// than what is installed, and compatible; otherwise the exact
    /// rejection, in that order of checks.  The caller then retires the old
    /// entry with `uninstall_source` and re-installs with `commit_install`.
    pub fn prepare_update(&self, index: &Vec<SourceDto>, id: i64) -> (r: Result<
        SourceDto,
        SourceError,
    >)
        requires
            self.wf(),
        ensures
            !self@.contains_key(id) ==> r == Err::<SourceDto, SourceError>(SourceError::NotFound),
            self@.contains_key(id) && spec_find_index(index@, id) is None ==> r == Err::<
                SourceDto,
                SourceError,
            >(SourceError::NotFoundInIndex),
            self@.contains_key(id) ==> (spec_find_index(index@, id) matches Some(d) ==> (
            match (
                spec_parse_version(self@[id].source.version@),
                spec_parse_version(d.version@),
            ) {
                (Some(iv), Some(rv)) => if !spec_version_lt(iv, rv) {
                    r == Err::<SourceDto, SourceError>(SourceError::NoNewVersion)
                } else if !spec_compatible(d, self.host_rustc(), self.host_lib()) {
                    r == Err::<SourceDto, SourceError>(SourceError::IncompatibleVersion)
                } else {
                    r == Ok::<SourceDto, SourceError>(d)
                },
                _ => r == Err::<SourceDto, SourceError>(SourceError::VersionParseError),
            })),
    {
        let installed = match self.bus.get_source_info(id) {
            Ok(s) => s,
            Err(_) => {
                return Err(SourceError::NotFound);
            },
        };
        let descriptor = match Self::find_descriptor(index, id) {
            Some(d) => d,
            None => {
                return Err(SourceError::NotFoundInIndex);
            },
        };
        let newer = match has_newer(installed.version.as_str(), descriptor.version.as_str()) {
            Ok(b) => b,
            Err(e) => {
                return Err(e);
            },
        };
        if !newer {
            return Err(SourceError::NoNewVersion);
        }
        if !self.is_compatible(&descriptor) {
            return Err(SourceError::IncompatibleVersion);
        }
        Ok(descriptor)
    }

    /// The handle to dispatch a plugin call through, or `NotFound` when no
    /// source with this id is installed.
    pub fn resolve(&self, source_id: i64) -> (r: Result<Handle, SourceError>)
        requires
            self.wf(),
        ensures
            self@.contains_key(source_id) ==> r == Ok::<Handle, SourceError>(
                self@[source_id].handle,
            ),
            !self@.contains_key(source_id) ==> r == Err::<Handle, SourceError>(
                SourceError::NotFound,
            ),
    {
        self.bus.resolve(source_id)
    }

    /// Normalizes a list of plugin manga records by direct field copy,
    /// keeping the collaborator's element order.
    fn normalize_manga(items: Vec<MangaInfo>) -> (r: Vec<Manga>)
        ensures
            r@.len() == items@.len(),
            forall|i: int| 0 <= i < items@.len() ==> r@[i] == spec_manga_from_info(items@[i]),
    {
        let mut out: Vec<Manga> = Vec::new();
        let mut rest = items;
        let ghost all = rest@;
        while rest.len() > 0
            invariant
                out@.len() + rest@.len() == all.len(),
                rest@ =~= all.subrange(out@.len() as int, all.len() as int),
                forall|k: int| 0 <= k < out@.len() ==> out@[k] == spec_manga_from_info(all[k]),
            decreases rest@.len(),
        {
            let ghost done = out@.len() as int;
            let item = rest.remove(0);
            proof {
                assert(item == all[done]);
                assert(rest@ =~= all.subrange(done + 1, all.len() as int));
            }
            out.push(Manga::from_info(item));
        }
        out
    }

    /// One catalog dispatch result, normalized: `NotFound` when the id is
    /// not installed, the collaborator's failure surfaced otherwise, and on
    /// success every record converted by direct field copy in order.
    fn normalize_manga_dispatch(&self, source_id: i64, fetched: Result<
        Vec<MangaInfo>,
        DispatchFailure,
    >) -> (r: Result<Vec<Manga>, SourceError>)
        requires
            self.wf(),
        ensures
            !self@.contains_key(source_id) ==> r == Err::<Vec<Manga>, SourceError>(
                SourceError::NotFound,
            ),
            self@.contains_key(source_id) ==> match fetched {
                Ok(items) => r matches Ok(out) && out@.len() == items@.len() && (forall|i: int|
                    0 <= i < items@.len() ==> out@[i] == spec_manga_from_info(items@[i])),
                Err(f) => r == Err::<Vec<Manga>, SourceError>(spec_dispatch_error(f)),
            },
    {
        if !self.bus.contains(source_id) {
            return Err(SourceError::NotFound);
        }
        match fetched {
            Ok(items) => Ok(Self::normalize_manga(items)),
            Err(DispatchFailure::Execution) => Err(SourceError::ExecutionError),
            Err(DispatchFailure::Protocol) => Err(SourceError::ProtocolError),
        }
    }

    /// The popular-catalog dispatch, given what the collaborator returned
    /// for the resolved handle.
    pub fn get_popular_manga(&self, source_id: i64, fetched: Result<
        Vec<MangaInfo>,
        DispatchFailure,
    >) -> (r: Result<Vec<Manga>, SourceError>)
        requires
            self.wf(),
        ensures
            !self@.contains_key(source_id) ==> r == Err::<Vec<Manga>, SourceError>(
                SourceError::NotFound,
            ),
            self@.contains_key(source_id) ==> match fetched {
                Ok(items) => r matches Ok(out) && out@.len() == items@.len() && (forall|i: int|
                    0 <= i < items@.len() ==> out@[i] == spec_manga_from_info(items@[i])),
                Err(f) => r == Err::<Vec<Manga>, SourceError>(spec_dispatch_error(f)),
            },
    {
        self.normalize_manga_dispatch(source_id, fetched)
    }

    /// The latest-catalog dispatch, given what the collaborator returned.
    pub fn get_latest_manga(&self, source_id: i64, fetched: Result<
        Vec<MangaInfo>,
        DispatchFailure,
    >) -> (r: Result<Vec<Manga>, SourceError>)
        requires
            self.wf(),
        ensures
            !self@.contains_key(source_id) ==> r == Err::<Vec<Manga>, SourceError>(
                SourceError::NotFound,
            ),
            self@.contains_key(source_id) ==> match fetched {
                Ok(items) => r matches Ok(out) && out@.len() == items@.len() && (forall|i: int|
                    0 <= i < items@.len() ==> out@[i] == spec_manga_from_info(items@[i])),
                Err(f) => r == Err::<Vec<Manga>, SourceError>(spec_dispatch_error(f)),
            },
    {
        self.normalize_manga_dispatch(source_id, fetched)
    }

    /// The search dispatch, given what the collaborator returned for the
    /// forwarded query and filters.
    pub fn search_manga(&self, source_id: i64, fetched: Result<
        Vec<MangaInfo>,
        DispatchFailure,
    >) -> (r: Result<Vec<Manga>, SourceError>)
        requires
            self.wf(),
        ensures
            !self@.contains_key(source_id) ==> r == Err::<Vec<Manga>, SourceError>(
                SourceError::NotFound,
            ),
            self@.contains_key(source_id) ==> match fetched {
                Ok(items) => r matches Ok(out) && out@.len() == items@.len() && (forall|i: int|
                    0 <= i < items@.len() ==> out@[i] == spec_manga_from_info(items@[i])),
                Err(f) => r == Err::<Vec<Manga>, SourceError>(spec_dispatch_error(f)),
            },
    {
        self.normalize_manga_dispatch(source_id, fetched)
    }

    /// The detail dispatch: one record, normalized by direct field copy.
    pub fn get_manga_by_source_path(&self, source_id: i64, fetched: Result<
        MangaInfo,
        DispatchFailure,
    >) -> (r: Result<Manga, SourceError>)
        requires
            self.wf(),
        ensures
            !self@.contains_key(source_id) ==> r == Err::<Manga, SourceError>(
                SourceError::NotFound,
            ),
            self@.contains_key(source_id) ==> match fetched {
                Ok(info) => r == Ok::<Manga, SourceError>(spec_manga_from_info(info)),
                Err(f) => r == Err::<Manga, SourceError>(spec_dispatch_error(f)),
            },
    {
        if !self.bus.contains(source_id) {
            return Err(SourceError::NotFound);
        }
        match fetched {
            Ok(info) => Ok(Manga::from_info(info)),
            Err(DispatchFailure::Execution) => Err(SourceError::ExecutionError),
            Err(DispatchFailure::Protocol) => Err(SourceError::ProtocolError),
        }
    }

    /// The chapter-list dispatch: every record converted in order.
    pub fn get_chapters_by_source_path(&self, source_id: i64, fetched: Result<
        Vec<ChapterInfo>,
        DispatchFailure,
    >) -> (r: Result<Vec<Chapter>, SourceError>)
        requires
            self.wf(),
        ensures
            !self@.contains_key(source_id) ==> r == Err::<Vec<Chapter>, SourceError>(
                SourceError::NotFound,
            ),
            self@.contains_key(source_id) ==> match fetched {
                Ok(items) => r matches Ok(out) && out@.len() == items@.len() && (forall|i: int|
                    0 <= i < items@.len() ==> out@[i] == spec_chapter_from_info(items@[i])),
                Err(f) => r == Err::<Vec<Chapter>, SourceError>(spec_dispatch_error(f)),
            },
    {
        if !self.bus.contains(source_id) {
            return Err(SourceError::NotFound);
        }
        match fetched {
            Ok(items) => {
                let mut out: Vec<Chapter> = Vec::new();
                let mut rest = items;
                let ghost all = rest@;
                while rest.len() > 0
                    invariant
                        out@.len() + rest@.len() == all.len(),
                        rest@ =~= all.subrange(out@.len() as int, all.len() as int),
                        forall|k: int|
                            0 <= k < out@.len() ==> out@[k] == spec_chapter_from_info(all[k]),
                    decreases rest@.len(),
                {
                    let ghost done = out@.len() as int;
                    let item = rest.remove(0);
                    proof {
                        assert(item == all[done]);
                        assert(rest@ =~= all.subrange(done + 1, all.len() as int));
                    }
                    out.push(Chapter::from_info(item));
                }
                Ok(out)
            },
            Err(DispatchFailure::Execution) => Err(SourceError::ExecutionError),
            Err(DispatchFailure::Protocol) => Err(SourceError::ProtocolError),
        }
    }

    /// The page-list dispatch: the page locations pass through unchanged.
    pub fn get_pages(&self, source_id: i64, fetched: Result<Vec<String>, DispatchFailure>) -> (r:
        Result<Vec<String>, SourceError>)
        requires
            self.wf(),
        ensures
            !self@.contains_key(source_id) ==> r == Err::<Vec<String>, SourceError>(
                SourceError::NotFound,
            ),
            self@.contains_key(source_id) ==> match fetched {
                Ok(pages) => r == Ok::<Vec<String>, SourceError>(pages),
                Err(f) => r == Err::<Vec<String>, SourceError>(spec_dispatch_error(f)),
            },
    {
        if !self.bus.contains(source_id) {
            return Err(SourceError::NotFound);
        }
        match fetched {
            Ok(pages) => Ok(pages),
            Err(DispatchFailure::Execution) => Err(SourceError::ExecutionError),
            Err(DispatchFailure::Protocol) => Err(SourceError::ProtocolError),
        }
    }
}

/// Whether an installed record matches the host identity exactly; the
/// installed twin of [`spec_compatible`].
pub open spec fn spec_compatible_source(s: Source, host_rustc: Seq<char>, host_lib: Seq<char>) -> bool {
    s.rustc_version@ == host_rustc && s.lib_version@ == host_lib
}

} // verus!

//! Extensions loaded into a state.
//!
//! Each state owns an ordered set of loaded extensions. Notification
//! is synchronous and sequential across the set: every loaded
//! extension observes every message, in order of loading. The model
//! records what each extension observed; delivering those records to
//! foreign extension code is a transport concern outside this crate.

use crate::assoc::{first_where, lemma_first_where_at, lemma_first_where_none};
use crate::errors::{Errors, ExtensionErrors};
use crate::messaging::{ExtensionMessages, ExtensionMessagesV};
use vstd::prelude::*;

verus! {

/// Information about an extension instance.
#[derive(Debug, PartialEq)]
pub struct ExtensionInfo {
    pub id: String,
    pub name: String,
}

/// Mathematical value of an [`ExtensionInfo`].
#[verifier::ext_equal]
pub ghost struct ExtensionInfoV {
    pub id: Seq<char>,
    pub name: Seq<char>,
}

impl View for ExtensionInfo {
    type V = ExtensionInfoV;

    open spec fn view(&self) -> ExtensionInfoV {
        ExtensionInfoV { id: self.id@, name: self.name@ }
    }
}

impl Clone for ExtensionInfo {
    fn clone(&self) -> (r: ExtensionInfo)
        ensures
            r@ == self@,
    {
        ExtensionInfo { id: self.id.clone(), name: self.name.clone() }
    }
}

/// Manifest describing one extension.
#[derive(Debug, PartialEq)]
pub struct ManifestInfo {
    pub extension: ExtensionInfo,
}

/// Mathematical value of a [`ManifestInfo`].
#[verifier::ext_equal]
pub ghost struct ManifestInfoV {
    pub extension: ExtensionInfoV,
}

impl View for ManifestInfo {
    type V = ManifestInfoV;

    open spec fn view(&self) -> ManifestInfoV {
        ManifestInfoV { extension: self.extension@ }
    }
}

impl Clone for ManifestInfo {
    fn clone(&self) -> (r: ManifestInfo)
        ensures
            r@ == self@,
    {
        ManifestInfo { extension: self.extension.clone() }
    }
}

/// Lifecycle and notification surface of one extension.
pub trait Extension {
    /// Called when the extension is loaded.
    fn init(&mut self);

    /// Called when the extension is unloaded.
    fn unload(&mut self);

    /// Forward one message to the extension.
    fn notify(&mut self, message: ExtensionMessages);

    /// Information about the extension instance.
    fn get_info(&self) -> ExtensionInfo;
}

/// One extension loaded into a state: its manifest, whether its init
/// hook ran, and the messages it observed, in delivery order.
pub struct LoadedExtension {
    manifest: ManifestInfo,
    initialized: bool,
    received: Vec<ExtensionMessages>,
}

/// Mathematical value of a [`LoadedExtension`].
#[verifier::ext_equal]
pub ghost struct LoadedExtensionV {
    pub manifest: ManifestInfoV,
    pub initialized: bool,
    pub received: Seq<ExtensionMessagesV>,
}

impl View for LoadedExtension {
    type V = LoadedExtensionV;

    closed spec fn view(&self) -> LoadedExtensionV {
        LoadedExtensionV {
            manifest: self.manifest@,
            initialized: self.initialized,
            received: self.received@.map_values(|m: ExtensionMessages| m@),
        }
    }
}

impl LoadedExtension {
    /// A freshly loaded extension: not yet initialized, nothing
    /// observed.
    pub fn new(manifest: ManifestInfo) -> (r: Self)
        ensures
            r@ == (LoadedExtensionV {
                manifest: manifest@,
                initialized: false,
                received: Seq::empty(),
            }),
    {
        let r = LoadedExtension { manifest, initialized: false, received: Vec::new() };
        proof {
            assert(r@.received =~= Seq::<ExtensionMessagesV>::empty());
            assert(r@ =~= (LoadedExtensionV {
                manifest: r.manifest@,
                initialized: false,
                received: Seq::empty(),
            }));
        }
        r
    }

    /// Run the init lifecycle hook.
    pub fn mark_initialized(&mut self)
        ensures
            final(self)@ == (LoadedExtensionV { initialized: true, ..old(self)@ }),
    {
        self.initialized = true;
    }

    /// Run the unload lifecycle hook.
    pub fn mark_unloaded(&mut self)
        ensures
            final(self)@ == (LoadedExtensionV { initialized: false, ..old(self)@ }),
    {
        self.initialized = false;
    }

    /// Record one observed message.
    pub fn record(&mut self, message: ExtensionMessages)
        ensures
            final(self)@ == (LoadedExtensionV {
                received: old(self)@.received.push(message@),
                ..old(self)@
            }),
    {
        let ghost mv = message@;
        self.received.push(message);
        proof {
            assert(self@.received =~= old(self)@.received.push(mv));
            assert(self@ =~= (LoadedExtensionV { received: old(self)@.received.push(mv), ..old(self)@ }));
        }
    }

    /// Information about the extension instance.
    pub fn info(&self) -> (r: ExtensionInfo)
        ensures
            r@ == self@.manifest.extension,
    {
        self.manifest.extension.clone()
    }

    /// The extension's manifest.
    pub fn manifest(&self) -> (r: &ManifestInfo)
        ensures
            r@ == self@.manifest,
    {
        &self.manifest
    }

    /// The messages observed so far, in delivery order.
    pub fn received(&self) -> (r: &Vec<ExtensionMessages>)
        ensures
            r@.map_values(|m: ExtensionMessages| m@) == self@.received,
    {
        &self.received
    }

    /// Whether the init hook has run.
    pub fn is_initialized(&self) -> (r: bool)
        ensures
            r == self@.initialized,
    {
        self.initialized
    }
}

impl Extension for LoadedExtension {
    fn init(&mut self) {
        self.mark_initialized();
    }

    fn unload(&mut self) {
        self.mark_unloaded();
    }

    fn notify(&mut self, message: ExtensionMessages) {
        self.record(message);
    }

    fn get_info(&self) -> ExtensionInfo {
        self.info()
    }
}

/// The extensions after every one observed `m`.
pub open spec fn spec_notify(exts: Seq<LoadedExtensionV>, m: ExtensionMessagesV) -> Seq<
    LoadedExtensionV,
> {
    exts.map_values(|e: LoadedExtensionV| LoadedExtensionV { received: e.received.push(m), ..e })
}

/// The extensions after every init hook ran.
pub open spec fn spec_run(exts: Seq<LoadedExtensionV>) -> Seq<LoadedExtensionV> {
    exts.map_values(|e: LoadedExtensionV| LoadedExtensionV { initialized: true, ..e })
}

/// Predicate selecting the extension with the given id.
pub open spec fn ext_id_is(id: Seq<char>) -> spec_fn(LoadedExtensionV) -> bool {
    |e: LoadedExtensionV| e.manifest.extension.id == id
}

/// What an extension-info lookup returns: the manifest of the first
/// extension with that id, or `ExtensionNotFound`.
pub open spec fn spec_ext_info(exts: Seq<LoadedExtensionV>, id: Seq<char>) -> Result<
    ManifestInfoV,
    Errors,
> {
    match first_where(exts, ext_id_is(id)) {
        Some(i) => Ok(exts[i].manifest),
        None => Err(Errors::Ext(ExtensionErrors::ExtensionNotFound)),
    }
}

/// The ids of the loaded extensions, in loading order.
pub open spec fn spec_ext_list(exts: Seq<LoadedExtensionV>) -> Seq<Seq<char>> {
    exts.map_values(|e: LoadedExtensionV| e.manifest.extension.id)
}

/// View of an extension-info result, for stating contracts.
pub open spec fn manifest_result_view(r: Result<ManifestInfo, Errors>) -> Result<
    ManifestInfoV,
    Errors,
> {
    match r {
        Ok(m) => Ok(m@),
        Err(e) => Err(e),
    }
}

/// The ordered collection of extensions loaded into one state.
pub struct ExtensionsManager {
    extensions: Vec<LoadedExtension>,
}

impl View for ExtensionsManager {
    type V = Seq<LoadedExtensionV>;

    closed spec fn view(&self) -> Seq<LoadedExtensionV> {
        self.extensions@.map_values(|e: LoadedExtension| e@)
    }
}

impl ExtensionsManager {
    /// An empty collection.
    pub fn new() -> (r: Self)
        ensures
            r@ == Seq::<LoadedExtensionV>::empty(),
    {
        let r = ExtensionsManager { extensions: Vec::new() };
        proof {
            assert(r@ =~= Seq::<LoadedExtensionV>::empty());
        }
        r
    }

    /// Load one extension at the end of the collection.
    pub fn load_extension(&mut self, manifest: ManifestInfo)
        ensures
            final(self)@ == old(self)@.push(LoadedExtensionV {
                manifest: manifest@,
                initialized: false,
                received: Seq::empty(),
            }),
    {
        let ghost m = manifest@;
        self.extensions.push(LoadedExtension::new(manifest));
        proof {
            assert(self@ =~= old(self)@.push(LoadedExtensionV {
                manifest: m,
                initialized: false,
                received: Seq::empty(),
            }));
        }
    }

    /// Deliver one message to every loaded extension, in order.
    pub fn notify_extensions(&mut self, message: &ExtensionMessages)
        ensures
            final(self)@ == spec_notify(old(self)@, message@),
    {
        let n = self.extensions.len();
        let mut i: usize = 0;
        while i < n
            invariant
                i <= n,
                n == self.extensions.len(),
                self@.len() == old(self)@.len(),
                forall|j: int| i <= j < n ==> self@[j] == old(self)@[j],
                forall|j: int|
                    0 <= j < i ==> self@[j] == (LoadedExtensionV {
                        received: old(self)@[j].received.push(message@),
                        ..old(self)@[j]
                    }),
            decreases n - i,
        {
            let ghost prev = self@;
            let m = message.clone();
            let e = &mut self.extensions[i];
            e.record(m);
            proof {
                assert(self@ =~= prev.update(
                    i as int,
                    LoadedExtensionV {
                        received: prev[i as int].received.push(message@),
                        ..prev[i as int]
                    },
                ));
            }
            i = i + 1;
        }
        proof {
            assert(self@ =~= spec_notify(old(self)@, message@));
        }
    }

    /// Run the init hook of every loaded extension, in order.
    pub fn run_extensions(&mut self)
        ensures
            final(self)@ == spec_run(old(self)@),
    {
        let n = self.extensions.len();
        let mut i: usize = 0;
        while i < n
            invariant
                i <= n,
                n == self.extensions.len(),
                self@.len() == old(self)@.len(),
                forall|j: int| i <= j < n ==> self@[j] == old(self)@[j],
                forall|j: int|
                    0 <= j < i ==> self@[j] == (LoadedExtensionV {
                        initialized: true,
                        ..old(self)@[j]
                    }),
            decreases n - i,
        {
            let ghost prev = self@;
            let e = &mut self.extensions[i];
            e.mark_initialized();
            proof {
                assert(self@ =~= prev.update(
                    i as int,
                    LoadedExtensionV { initialized: true, ..prev[i as int] },
                ));
            }
            i = i + 1;
        }
        proof {
            assert(self@ =~= spec_run(old(self)@));
        }
    }

    /// Manifest of the first extension with the given id, or
    /// `ExtensionNotFound`.
    pub fn get_ext_info_by_id(&self, extension_id: &String) -> (r: Result<ManifestInfo, Errors>)
        ensures
            manifest_result_view(r) == spec_ext_info(self@, extension_id@),
    {
        let ghost p = ext_id_is(extension_id@);
        let n = self.extensions.len();
        let mut i: usize = 0;
        while i < n
            invariant
                i <= n,
                n == self.extensions.len(),
                forall|j: int| 0 <= j < i ==> !p(self@[j]),
                p == ext_id_is(extension_id@),
            decreases n - i,
        {
            let info = self.extensions[i].manifest();
            if info.extension.id.eq(extension_id) {
                proof {
                    lemma_first_where_at(self@, p, i as int);
                }
                return Ok(self.extensions[i].manifest().clone());
            }
            i = i + 1;
        }
        proof {
            lemma_first_where_none(self@, p);
        }
        Err(Errors::Ext(ExtensionErrors::ExtensionNotFound))
    }

    /// Ids of the loaded extensions, in loading order.
    pub fn get_ext_list_by_id(&self) -> (r: Vec<String>)
        ensures
            r@.map_values(|s: String| s@) == spec_ext_list(self@),
    {
        let n = self.extensions.len();
        let mut ids: Vec<String> = Vec::new();
        let mut i: usize = 0;
        while i < n
            invariant
                i <= n,
                n == self.extensions.len(),
                ids@.len() == i,
                forall|j: int| 0 <= j < i ==> ids@[j]@ == self@[j].manifest.extension.id,
            decreases n - i,
        {
            let info = self.extensions[i].info();
            ids.push(info.id);
            i = i + 1;
        }
        proof {
            assert(ids@.map_values(|s: String| s@) =~= spec_ext_list(self@));
        }
        ids
    }

    /// The loaded extensions themselves, for inspection.
    pub fn extensions(&self) -> (r: &Vec<LoadedExtension>)
        ensures
            r@.map_values(|e: LoadedExtension| e@) == self@,
    {
        &self.extensions
    }
}

} // verus!

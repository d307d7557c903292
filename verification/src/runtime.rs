//! The lifecycle of the shared foreign runtime: where its bundled files are
//! stored, when the stored copy must be rewritten, and the construct-at-most-
//! once discipline for the function-resolution table.
//!
//! The expensive foreign work — creating directories, writing the bundled
//! files, bootstrapping the runtime — happens outside this crate; the
//! decisions that drive it are made here, over plain values, and the
//! once-only rule for the resolution table is enforced by
//! [`DotNetLibraryBundle::install_runtime`].

use vstd::prelude::*;

verus! {

/// Where the caller asked the runtime bundle to live: an explicit persistent
/// directory, or an ephemeral one created for this process.
#[derive(Debug, Clone, PartialEq, Eq)]
pub enum StoreChoice {
    /// Use the given directory, which persists after the process ends.
    Persistent(String),
    /// Create a temporary directory that is cleaned up automatically.
    Ephemeral,
}

/// Resolve where the bundle directory should live: an explicit request wins,
/// then a configured override, and with neither an ephemeral directory is
/// used.
pub fn choose_store(explicit: Option<String>, configured: Option<String>) -> (r: StoreChoice)
    ensures
        explicit matches Some(p) ==> r == StoreChoice::Persistent(p),
        explicit is None ==> (configured matches Some(p) ==> r == StoreChoice::Persistent(p)),
        explicit is None && configured is None ==> r == StoreChoice::Ephemeral,
{
    match explicit {
        Some(p) => StoreChoice::Persistent(p),
        None => match configured {
            Some(p) => StoreChoice::Persistent(p),
            None => StoreChoice::Ephemeral,
        },
    }
}

/// Represent a directory to store bundled files within.  Each variant names
/// the directory by its path; an ephemeral directory's files are deleted when
/// the bundle goes away, a persistent one's are not.
#[derive(Debug, Clone, PartialEq, Eq)]
pub enum BundleStore {
    /// A temporary directory that will be cleaned up automatically.
    TempDir(String),
    /// A specific directory that will persist after the process ends.
    Path(String),
}

/// A location on the file system holding the bundled files of the foreign
/// runtime, together with the at-most-once slot for the runtime's
/// function-resolution table.
///
/// The table slot starts empty; the first access installs a table and every
/// later access observes that same table — a table is never constructed
/// twice for one bundle ([`lemma_single_construction`]).  The table itself
/// lives on the foreign side and is named here by an opaque identifier.
pub struct DotNetLibraryBundle {
    /// Where the bundled files are written.
    dir: BundleStore,
    /// The resolution table of the loaded runtime, once one was installed.
    loader: Option<u64>,
}

/// The bundle state after one access that would install `fresh` if no table
/// were present: the first access fills the slot, every other one leaves the
/// bundle exactly as it is.
pub closed spec fn after_install(b: DotNetLibraryBundle, fresh: u64) -> DotNetLibraryBundle {
    if b.spec_loader() is Some {
        b
    } else {
        DotNetLibraryBundle { loader: Some(fresh), ..b }
    }
}

/// The table such an access observes.
pub closed spec fn observed_loader(b: DotNetLibraryBundle, fresh: u64) -> u64 {
    match b.spec_loader() {
        Some(t) => t,
        None => fresh,
    }
}

impl DotNetLibraryBundle {
    /// The directory the bundle writes to.
    pub closed spec fn spec_dir(&self) -> BundleStore {
        self.dir
    }

    /// The installed function-resolution table, if any.
    pub closed spec fn spec_loader(&self) -> Option<u64> {
        self.loader
    }

    /// The path of the bundle directory.
    pub open spec fn spec_path(&self) -> Seq<char> {
        match self.spec_dir() {
            BundleStore::TempDir(d) => d@,
            BundleStore::Path(d) => d@,
        }
    }

    /// Create a new bundle over an already-resolved store.  No runtime is
    /// loaded yet.
    pub fn new(dir: BundleStore) -> (r: Self)
        ensures
            r.spec_dir() == dir,
            r.spec_loader() is None,
    {
        DotNetLibraryBundle { dir, loader: None }
    }

    /// Get the path of the directory the bundled files are written to.
    pub fn path(&self) -> (r: &str)
        ensures
            r@ == self.spec_path(),
    {
        match &self.dir {
            BundleStore::TempDir(d) => d.as_str(),
            BundleStore::Path(d) => d.as_str(),
        }
    }

    /// Whether the expensive runtime construction still has to happen.
    pub fn needs_runtime(&self) -> (r: bool)
        ensures
            r == (self.spec_loader() is None),
    {
        match self.loader {
            Some(_) => false,
            None => true,
        }
    }

    /// Install a freshly constructed function-resolution table, unless one
    /// is already present, and hand back the table every caller must use.
    ///
    /// The first access installs its table; each later access finds the slot
    /// filled, discards its own candidate and observes the table the first
    /// access installed.
    pub fn install_runtime(&mut self, fresh: u64) -> (r: u64)
        ensures
            *final(self) == after_install(*old(self), fresh),
            r == observed_loader(*old(self), fresh),
            final(self).spec_loader() == Some(r),
    {
        match self.loader {
            Some(t) => t,
            None => {
                self.loader = Some(fresh);
                fresh
            },
        }
    }
}

/// The function-resolution table of a bundle is built exactly once: after a
/// first access has installed a table, any further access — whatever
/// candidate table it brings — changes nothing and observes the very table
/// the first access installed.
pub proof fn lemma_single_construction(b: DotNetLibraryBundle, first: u64, later: u64)
    ensures
        after_install(after_install(b, first), later) == after_install(b, first),
        observed_loader(after_install(b, first), later) == observed_loader(b, first),
{
}

/// Compare two byte strings.
fn bytes_equal(a: &Vec<u8>, b: &Vec<u8>) -> (r: bool)
    ensures
        r == (a@ == b@),
{
    if a.len() != b.len() {
        return false;
    }
    let mut i: usize = 0;
    while i < a.len()
        invariant
            a@.len() == b@.len(),
            i <= a@.len(),
            forall|j: int| 0 <= j < i ==> a@[j] == b@[j],
        decreases a@.len() - i,
    {
        if a[i] != b[i] {
            return false;
        }
        i += 1;
    }
    proof {
        assert(a@ =~= b@);
    }
    true
}

/// Decide whether the bundled runtime files must be (re)written to the
/// bundle directory.
///
/// They must be written when the directory does not exist yet, when no
/// checksum marker is stored there, or when the stored checksum differs from
/// the checksum shipped with the bundled payload.  Only a directory whose
/// stored checksum matches the bundled one is left alone.
pub fn needs_write(
    path_exists: bool,
    stored_checksum: &Option<Vec<u8>>,
    bundled_checksum: &Vec<u8>,
) -> (r: bool)
    ensures
        r <==> (!path_exists || stored_checksum is None || stored_checksum.unwrap()@
            != bundled_checksum@),
{
    if !path_exists {
        return true;
    }
    match stored_checksum {
        None => true,
        Some(stored) => !bytes_equal(stored, bundled_checksum),
    }
}

} // verus!

//! The registry document of a package and the resolution of its latest
//! release.

use crate::error::{RegistryError, RegistryErrorView};
use std::collections::HashMap;
use vstd::hash_map::StringHashMap;
use vstd::prelude::*;

verus! {

/// One downloadable artifact: the tarball of one version.
#[derive(Debug, Clone, PartialEq, Eq)]
pub struct PackageDistribution {
    /// Subresource-integrity hash of the tarball.
    pub integrity: String,
    /// Detached signature of the package, where the registry still gives one.
    pub npm_signature: Option<String>,
    /// Digest of the tarball.
    pub shasum: String,
    /// Address from which the tarball is downloaded.
    pub tarball: String,
}

/// One published release of a package.
#[derive(Debug, Clone, PartialEq, Eq)]
pub struct PackageVersion {
    /// Version of the tool that published the release.
    pub npm_version: String,
    /// Version of the runtime at the time of publishing.
    pub node_version: Option<String>,
    /// The release's tarball.
    pub dist: PackageDistribution,
    /// Package name to version range, for what the release needs to run.
    pub dependencies: Option<HashMap<String, String>>,
    /// Package name to version range, for what only its development needs.
    pub dev_dependencies: Option<HashMap<String, String>>,
}

/// The registry's document for one package name.
pub struct Package {
    name: String,
    dist_tags: StringHashMap<String>,
    versions: StringHashMap<PackageVersion>,
}

/// A [`PackageDistribution`] as plain sequences of characters.
pub ghost struct PackageDistributionView {
    pub integrity: Seq<char>,
    pub npm_signature: Option<Seq<char>>,
    pub shasum: Seq<char>,
    pub tarball: Seq<char>,
}

/// A [`PackageVersion`] as plain sequences and maps.
pub ghost struct PackageVersionView {
    pub npm_version: Seq<char>,
    pub node_version: Option<Seq<char>>,
    pub dist: PackageDistributionView,
    pub dependencies: Option<Map<Seq<char>, Seq<char>>>,
    pub dev_dependencies: Option<Map<Seq<char>, Seq<char>>>,
}

/// A [`Package`] as a name and two maps: tag to version string, and version
/// string to release.
pub ghost struct PackageView {
    pub name: Seq<char>,
    pub dist_tags: Map<Seq<char>, Seq<char>>,
    pub versions: Map<Seq<char>, PackageVersionView>,
}

/// The characters of an optional string.
pub open spec fn optional_chars(s: Option<String>) -> Option<Seq<char>> {
    match s {
        Some(s) => Some(s@),
        None => None,
    }
}

/// A dependency table as a map from name to range, both as characters.
pub open spec fn optional_table(t: Option<HashMap<String, String>>) -> Option<
    Map<Seq<char>, Seq<char>>,
> {
    match t {
        Some(t) => Some(t.deep_view()),
        None => None,
    }
}

impl View for PackageDistribution {
    type V = PackageDistributionView;

    open spec fn view(&self) -> PackageDistributionView {
        PackageDistributionView {
            integrity: self.integrity@,
            npm_signature: optional_chars(self.npm_signature),
            shasum: self.shasum@,
            tarball: self.tarball@,
        }
    }
}

impl View for PackageVersion {
    type V = PackageVersionView;

    open spec fn view(&self) -> PackageVersionView {
        PackageVersionView {
            npm_version: self.npm_version@,
            node_version: optional_chars(self.node_version),
            dist: self.dist@,
            dependencies: optional_table(self.dependencies),
            dev_dependencies: optional_table(self.dev_dependencies),
        }
    }
}

/// A table with each value replaced by its view.
pub open spec fn table_view<V: View>(table: Map<Seq<char>, V>) -> Map<Seq<char>, V::V> {
    table.map_values(|value: V| value@)
}

/// The table that inserting the entries one after another builds: it maps a
/// key to the value of the last entry that has the key.
pub open spec fn table_of_entries<V: View>(entries: Seq<(String, V)>) -> Map<Seq<char>, V::V>
    decreases entries.len(),
{
    if entries.len() == 0 {
        Map::empty()
    } else {
        table_of_entries(entries.drop_last()).insert(entries.last().0@, entries.last().1@)
    }
}

impl View for Package {
    type V = PackageView;

    closed spec fn view(&self) -> PackageView {
        PackageView {
            name: self.name@,
            dist_tags: table_view(self.dist_tags@),
            versions: table_view(self.versions@),
        }
    }
}

/// Moves the entries into a hash table, in their order.
fn collect_table<V: View>(entries: Vec<(String, V)>) -> (table: StringHashMap<V>)
    ensures
        table_view(table@) == table_of_entries(entries@),
{
    let ghost all = entries@;
    let mut table: StringHashMap<V> = StringHashMap::new();
    for entry in it: entries
        invariant
            it.seq() == all,
            table_view(table@) == table_of_entries(all.take(it.index() as int)),
    {
        let ghost done = all.take(it.index() as int);
        let ghost next = all.take(it.index() + 1);
        assert(next.drop_last() =~= done);
        let (key, value) = entry;
        table.insert(key, value);
    }
    assert(all.take(all.len() as int) =~= all);
    table
}

/// The tag that names a package's current release.
pub open spec fn latest() -> Seq<char> {
    "latest"@
}

impl PackageView {
    /// The version string under the `latest` tag; without that tag, the
    /// error that names the package.
    pub open spec fn latest_tag(self) -> Result<Seq<char>, RegistryErrorView> {
        if self.dist_tags.contains_key(latest()) {
            Ok(self.dist_tags[latest()])
        } else {
            Err(RegistryErrorView::MissingLatestTag(self.name))
        }
    }

    /// The release that the `latest` tag names; where the package holds no
    /// such release, the error that names the version and the package.
    pub open spec fn latest_version(self) -> Result<PackageVersionView, RegistryErrorView> {
        match self.latest_tag() {
            Ok(version) => if self.versions.contains_key(version) {
                Ok(self.versions[version])
            } else {
                Err(RegistryErrorView::MissingVersionRelease(version, self.name))
            },
            Err(e) => Err(e),
        }
    }

    /// Whether every tag names a version that the document holds. A
    /// registry is expected to keep its documents so; building a document
    /// does not enforce it.
    pub open spec fn is_consistent(self) -> bool {
        forall|tag: Seq<char>| #[trigger]
            self.dist_tags.contains_key(tag) ==> self.versions.contains_key(self.dist_tags[tag])
    }

    /// Where the tarball of the latest release is downloaded from.
    pub open spec fn tarball_url(self) -> Result<Seq<char>, RegistryErrorView> {
        match self.latest_version() {
            Ok(release) => Ok(release.dist.tarball),
            Err(e) => Err(e),
        }
    }
}

/// What a resolution returned, with the value found and the error both as
/// their views.
pub open spec fn outcome<T: View + ?Sized>(r: Result<&T, RegistryError>) -> Result<
    T::V,
    RegistryErrorView,
> {
    match r {
        Ok(found) => Ok(found@),
        Err(e) => Err(e@),
    }
}

impl Package {
    /// The document of the package `name`, with its tags and releases given
    /// as entries: `(tag, version)` and `(version, release)`.
    ///
    /// Of two entries with the same key the later one stays, as when a
    /// parser fills a table entry by entry.
    pub fn new(
        name: String,
        dist_tags: Vec<(String, String)>,
        versions: Vec<(String, PackageVersion)>,
    ) -> (package: Package)
        ensures
            package@ == (PackageView {
                name: name@,
                dist_tags: table_of_entries(dist_tags@),
                versions: table_of_entries(versions@),
            }),
    {
        Package { name, dist_tags: collect_table(dist_tags), versions: collect_table(versions) }
    }

    /// The package's canonical name.
    pub fn name(&self) -> (name: &String)
        ensures
            name@ == self@.name,
    {
        &self.name
    }

    /// The version string that the `latest` tag points to.
    ///
    /// Fails with [`RegistryError::MissingLatestTag`], carrying the package's
    /// name, exactly when the document has no `latest` tag.
    pub fn get_latest_tag(&self) -> (tag: Result<&String, RegistryError>)
        ensures
            outcome(tag) == self@.latest_tag(),
    {
        match self.dist_tags.get("latest") {
            Some(version) => Ok(version),
            None => Err(RegistryError::MissingLatestTag(self.name.clone())),
        }
    }

    /// The release that the `latest` tag points to.
    ///
    /// Fails as [`Package::get_latest_tag`] does; and with
    /// [`RegistryError::MissingVersionRelease`], carrying the version string
    /// and the package's name, exactly when the tag exists and the document
    /// holds no release under the version it names.
    pub fn get_latest_version(&self) -> (release: Result<&PackageVersion, RegistryError>)
        ensures
            outcome(release) == self@.latest_version(),
    {
        let version = self.get_latest_tag()?;
        match self.versions.get(version.as_str()) {
            Some(release) => Ok(release),
            None => Err(RegistryError::MissingVersionRelease(version.clone(), self.name.clone())),
        }
    }

    /// The address of the latest release's tarball.
    ///
    /// Fails exactly when [`Package::get_latest_version`] does, with the
    /// same error.
    pub fn get_tarball_url(&self) -> (url: Result<&str, RegistryError>)
        ensures
            outcome(url) == self@.tarball_url(),
    {
        let release = self.get_latest_version()?;
        Ok(release.dist.tarball.as_str())
    }
}

/// A table has a key exactly when some entry has it.
pub proof fn lemma_table_keys<V: View>(entries: Seq<(String, V)>, key: Seq<char>)
    ensures
        table_of_entries(entries).contains_key(key) <==> exists|i: int|
            0 <= i < entries.len() && #[trigger] entries[i].0@ == key,
    decreases entries.len(),
{
    if entries.len() > 0 {
        let front = entries.drop_last();
        lemma_table_keys(front, key);
        if exists|i: int| 0 <= i < entries.len() && #[trigger] entries[i].0@ == key {
            let i = choose|i: int| 0 <= i < entries.len() && #[trigger] entries[i].0@ == key;
            if i < front.len() {
                assert(front[i].0@ == key);
            }
        }
    }
}

/// A table gives a key the value of the last entry that has it: the entry
/// at `i`, where no later entry has the same key.
pub proof fn lemma_table_last_entry_stays<V: View>(entries: Seq<(String, V)>, i: int)
    requires
        0 <= i < entries.len(),
        forall|j: int| i < j < entries.len() ==> (#[trigger] entries[j]).0@ != entries[i].0@,
    ensures
        table_of_entries(entries).contains_key(entries[i].0@),
        table_of_entries(entries)[entries[i].0@] == entries[i].1@,
    decreases entries.len(),
{
    if i < entries.len() - 1 {
        let front = entries.drop_last();
        lemma_table_last_entry_stays(front, i);
    }
}

/// Resolution reads the document and nothing else: two packages that hold
/// the same document resolve to the same tag, release and address, or fail
/// with the same error. So do two calls on one package.
pub proof fn lemma_resolution_is_deterministic(first: Package, second: Package)
    requires
        first@ == second@,
    ensures
        first@.latest_tag() == second@.latest_tag(),
        first@.latest_version() == second@.latest_version(),
        first@.tarball_url() == second@.tarball_url(),
{
}

/// In a consistent document that has the `latest` tag every resolution
/// succeeds: with the version under the tag, the release under that
/// version, and the address of that release's tarball.
pub proof fn lemma_consistent_document_resolves(document: PackageView)
    requires
        document.is_consistent(),
        document.dist_tags.contains_key(latest()),
    ensures
        document.latest_tag() == Ok::<Seq<char>, RegistryErrorView>(document.dist_tags[latest()]),
        document.latest_version() == Ok::<PackageVersionView, RegistryErrorView>(
            document.versions[document.dist_tags[latest()]],
        ),
        document.tarball_url() == Ok::<Seq<char>, RegistryErrorView>(
            document.versions[document.dist_tags[latest()]].dist.tarball,
        ),
{
}

/// Without a `latest` tag every resolution fails, and the error names the
/// package.
pub proof fn lemma_missing_latest_tag(document: PackageView)
    requires
        !document.dist_tags.contains_key(latest()),
    ensures
        document.latest_tag() == Err::<Seq<char>, RegistryErrorView>(
            RegistryErrorView::MissingLatestTag(document.name),
        ),
        document.latest_version() == Err::<PackageVersionView, RegistryErrorView>(
            RegistryErrorView::MissingLatestTag(document.name),
        ),
        document.tarball_url() == Err::<Seq<char>, RegistryErrorView>(
            RegistryErrorView::MissingLatestTag(document.name),
        ),
{
}

/// Where the `latest` tag names a version that the document does not hold,
/// the tag resolves, and the release and the address fail with an error
/// that names the version and the package.
pub proof fn lemma_dangling_latest_tag(document: PackageView, version: Seq<char>)
    requires
        document.dist_tags.contains_key(latest()),
        document.dist_tags[latest()] == version,
        !document.versions.contains_key(version),
    ensures
        document.latest_tag() == Ok::<Seq<char>, RegistryErrorView>(version),
        document.latest_version() == Err::<PackageVersionView, RegistryErrorView>(
            RegistryErrorView::MissingVersionRelease(version, document.name),
        ),
        document.tarball_url() == Err::<Seq<char>, RegistryErrorView>(
            RegistryErrorView::MissingVersionRelease(version, document.name),
        ),
{
}

} // verus!

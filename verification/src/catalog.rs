//! The resource catalog: built once at startup from a directory listing,
//! keeping exactly the entries whose extension is on the allow-list, and
//! read-only thereafter. Offers lookup by name and a uniform random pick.

use vstd::prelude::*;

use crate::content_type::ContentType;
use crate::content_type::name_content_type;
use crate::content_type::supported_name;
use crate::content_type::resolve_content_type;
use crate::http_date::HTTP_DATE_MAX_SECS;
use crate::random::random_index;

verus! {

/// One addressable image file: its on-disk name, its path, its resolved
/// content type and its modification time in whole seconds since the epoch.
/// Immutable once cataloged.
pub struct Resource {
    pub name: String,
    pub path: String,
    pub content_type: ContentType,
    pub last_modified: u64,
}

/// The mathematical model of a [`Resource`].
pub struct ResourceView {
    pub name: Seq<char>,
    pub path: Seq<char>,
    pub content_type: ContentType,
    pub last_modified: u64,
}

impl ResourceView {
    /// A well-formed resource carries the content type its name resolves to
    /// (so it is on the allow-list) and a modification time the HTTP-date
    /// format can express.
    pub open spec fn wf(self) -> bool {
        &&& name_content_type(self.name) == Some(self.content_type)
        &&& self.last_modified < HTTP_DATE_MAX_SECS
    }
}

impl View for Resource {
    type V = ResourceView;

    open spec fn view(&self) -> ResourceView {
        ResourceView {
            name: self.name@,
            path: self.path@,
            content_type: self.content_type,
            last_modified: self.last_modified,
        }
    }
}

/// Why a catalog could not be built.
#[derive(Clone, Copy, Debug, PartialEq, Eq, Structural)]
pub enum CatalogError {
    /// The directory held no file with an allow-listed extension; serving
    /// would be pointless, so startup must fail.
    NoEligibleResources,
}

/// The resource a directory entry (file name and modification time) turns
/// into, where the name's extension is on the allow-list.
pub open spec fn resource_for(dir: Seq<char>, entry: (String, u64)) -> ResourceView {
    match name_content_type(entry.0@) {
        Some(ct) => ResourceView {
            name: entry.0@,
            path: dir + "/"@ + entry.0@,
            content_type: ct,
            last_modified: entry.1,
        },
        None => arbitrary(),
    }
}

/// The resources a directory listing yields, in listing order: one for each
/// entry whose extension is on the allow-list, the others silently excluded.
pub open spec fn built_resources(dir: Seq<char>, entries: Seq<(String, u64)>) -> Seq<ResourceView>
    decreases entries.len(),
{
    if entries.len() == 0 {
        Seq::empty()
    } else {
        built_resources(dir, entries.drop_last())
            + (if supported_name(entries.last().0@) {
                seq![resource_for(dir, entries.last())]
            } else {
                Seq::<ResourceView>::empty()
            })
    }
}

/// Whether a resource is the one some allow-listed entry of a listing turns
/// into.
pub open spec fn from_some_entry(
    dir: Seq<char>,
    entries: Seq<(String, u64)>,
    rv: ResourceView,
) -> bool {
    exists|i: int|
        0 <= i < entries.len() && supported_name(#[trigger] entries[i].0@)
            && rv == resource_for(dir, entries[i])
}

/// Every built resource comes from a supported entry; every supported entry
/// is represented; all are well-formed; and names stay distinct where the
/// entries' names are.
pub proof fn lemma_built_resources(dir: Seq<char>, entries: Seq<(String, u64)>)
    requires
        forall|i: int, j: int|
            0 <= i < entries.len() && 0 <= j < entries.len() && i != j
                ==> #[trigger] entries[i].0@ != #[trigger] entries[j].0@,
        forall|i: int| 0 <= i < entries.len() ==> (#[trigger] entries[i]).1 < HTTP_DATE_MAX_SECS,
    ensures
        forall|k: int| 0 <= k < built_resources(dir, entries).len()
            ==> from_some_entry(dir, entries, #[trigger] built_resources(dir, entries)[k]),
        forall|i: int| 0 <= i < entries.len() && supported_name(#[trigger] entries[i].0@)
            ==> built_resources(dir, entries).contains(resource_for(dir, entries[i])),
        forall|k: int| 0 <= k < built_resources(dir, entries).len()
            ==> (#[trigger] built_resources(dir, entries)[k]).wf(),
        forall|k: int, l: int|
            0 <= k < built_resources(dir, entries).len()
                && 0 <= l < built_resources(dir, entries).len() && k != l
                ==> #[trigger] built_resources(dir, entries)[k].name
                    != #[trigger] built_resources(dir, entries)[l].name,
    decreases entries.len(),
{
    if entries.len() > 0 {
        let prefix = entries.drop_last();
        let last = entries.last();
        lemma_built_resources(dir, prefix);
        let b = built_resources(dir, entries);
        let bp = built_resources(dir, prefix);
        assert forall|k: int| 0 <= k < b.len()
            implies from_some_entry(dir, entries, #[trigger] b[k]) by {
            if k < bp.len() {
                let i = choose|i: int| 0 <= i < prefix.len() && supported_name(#[trigger] prefix[i].0@)
                    && bp[k] == resource_for(dir, prefix[i]);
                assert(entries[i] == prefix[i]);
                assert(supported_name(entries[i].0@) && b[k] == resource_for(dir, entries[i]));
            } else {
                let i = entries.len() - 1;
                assert(supported_name(entries[i].0@) && b[k] == resource_for(dir, entries[i]));
            }
        }
        assert forall|i: int| 0 <= i < entries.len() && supported_name(#[trigger] entries[i].0@)
            implies b.contains(resource_for(dir, entries[i])) by {
            if i < prefix.len() {
                assert(bp.contains(resource_for(dir, prefix[i])));
                let k = choose|k: int| 0 <= k < bp.len()
                    && #[trigger] bp[k] == resource_for(dir, prefix[i]);
                assert(b[k] == resource_for(dir, entries[i]));
            } else {
                assert(b[b.len() - 1] == resource_for(dir, entries[i]));
            }
        }
        assert forall|k: int| 0 <= k < b.len() implies (#[trigger] b[k]).wf() by {
            if k < bp.len() {
                assert(b[k] == bp[k]);
            } else {
                assert(entries[entries.len() - 1] == last);
                assert(entries[entries.len() - 1].1 < HTTP_DATE_MAX_SECS);
                assert(b[k] == resource_for(dir, last));
            }
        }
        assert forall|k: int, l: int|
            0 <= k < b.len() && 0 <= l < b.len() && k != l
            implies #[trigger] b[k].name != #[trigger] b[l].name by {
            if k < bp.len() && l < bp.len() {
                assert(b[k] == bp[k] && b[l] == bp[l]);
            } else if k >= bp.len() && l >= bp.len() {
                assert(false);
            } else {
                // one element is the appended contribution of the last
                // entry, the other lies in the prefix and so names an
                // earlier entry; distinct entry names separate them
                let kp = if k < bp.len() { k } else { l };
                let kl = if k < bp.len() { l } else { k };
                let ip = choose|i: int| 0 <= i < prefix.len()
                    && supported_name(#[trigger] prefix[i].0@)
                    && bp[kp] == resource_for(dir, prefix[i]);
                assert(entries[ip] == prefix[ip]);
                assert(b[kp].name == entries[ip].0@);
                assert(entries[ip].0@ != last.0@);
                assert(b[kl].name == last.0@);
            }
        }
    }
}

/// The startup-built, read-only set of addressable resources.
pub struct Catalog {
    resources: Vec<Resource>,
}

impl View for Catalog {
    type V = Seq<ResourceView>;

    closed spec fn view(&self) -> Seq<ResourceView> {
        self.resources@.map_values(|r: Resource| r@)
    }
}

/// The catalog invariant: every resource is well-formed (its content type is
/// on the allow-list), names are distinct, and the catalog is never empty.
pub open spec fn catalog_wf(cat: Seq<ResourceView>) -> bool {
    &&& forall|i: int| 0 <= i < cat.len() ==> (#[trigger] cat[i]).wf()
    &&& forall|i: int, j: int|
        0 <= i < cat.len() && 0 <= j < cat.len() && i != j
            ==> #[trigger] cat[i].name != #[trigger] cat[j].name
    &&& cat.len() >= 1
}

impl Catalog {
    /// The catalog invariant, on this catalog's view.
    pub open spec fn wf(self) -> bool {
        catalog_wf(self@)
    }

    /// Builds the catalog from a directory listing: pairs of file name and
    /// modification time (whole seconds). Entries with unsupported
    /// extensions are silently excluded; a listing that leaves nothing
    /// eligible (in particular an empty directory) is rejected, so an empty
    /// catalog can never exist at request time.
    ///
    /// Directory listings never repeat a name, and file times the HTTP-date
    /// format cannot express (year 10000 on) are ruled out up front.
    pub fn build(dir: &str, entries: &Vec<(String, u64)>) -> (r: Result<Catalog, CatalogError>)
        requires
            forall|i: int, j: int|
                0 <= i < entries@.len() && 0 <= j < entries@.len() && i != j
                    ==> #[trigger] entries@[i].0@ != #[trigger] entries@[j].0@,
            forall|i: int| 0 <= i < entries@.len()
                ==> (#[trigger] entries@[i]).1 < HTTP_DATE_MAX_SECS,
        ensures
            match r {
                Ok(c) => c@ == built_resources(dir@, entries@) && c.wf(),
                Err(e) => e == CatalogError::NoEligibleResources,
            },
            r is Err <==> (forall|i: int| 0 <= i < entries@.len()
                ==> !supported_name(#[trigger] entries@[i].0@)),
    {
        let mut resources: Vec<Resource> = Vec::new();
        let n = entries.len();
        let mut idx: usize = 0;
        while idx < n
            invariant
                idx <= n,
                n == entries@.len(),
                resources@.map_values(|r: Resource| r@)
                    == built_resources(dir@, entries@.take(idx as int)),
            decreases n - idx,
        {
            let entry = &entries[idx];
            let ghost pre = resources@.map_values(|r: Resource| r@);
            proof {
                assert(entries@.take(idx + 1).drop_last() =~= entries@.take(idx as int));
                assert(entries@.take(idx + 1).last() == entries@[idx as int]);
            }
            match resolve_content_type(entry.0.as_str()) {
                Some(ct) => {
                    let mut path = String::from_str(dir);
                    path.append("/");
                    path.append(entry.0.as_str());
                    let res = Resource {
                        name: entry.0.clone(),
                        path,
                        content_type: ct,
                        last_modified: entry.1,
                    };
                    proof {
                        assert(res@ == resource_for(dir@, entries@[idx as int]));
                    }
                    resources.push(res);
                    proof {
                        assert(resources@.map_values(|r: Resource| r@)
                            =~= pre + seq![res@]);
                        assert(resources@.map_values(|r: Resource| r@)
                            =~= built_resources(dir@, entries@.take(idx + 1)));
                    }
                },
                None => {
                    proof {
                        assert(built_resources(dir@, entries@.take(idx + 1)) =~= pre);
                    }
                },
            }
            idx = idx + 1;
        }
        proof {
            assert(entries@.take(n as int) =~= entries@);
        }
        if resources.len() == 0 {
            proof {
                lemma_built_resources(dir@, entries@);
                assert forall|i: int| 0 <= i < entries@.len()
                    implies !supported_name(#[trigger] entries@[i].0@) by {
                    if supported_name(entries@[i].0@) {
                        assert(built_resources(dir@, entries@).len() > 0);
                    }
                }
            }
            Err(CatalogError::NoEligibleResources)
        } else {
            let c = Catalog { resources };
            proof {
                lemma_built_resources(dir@, entries@);
                // c's view is the built sequence; naming one element lets
                // the built-resources facts carry over to c's invariant
                let k = 0int;
                assert(built_resources(dir@, entries@)[k] == c@[k]);
            }
            Ok(c)
        }
    }

    /// The number of cataloged resources.
    pub fn len(&self) -> (r: usize)
        ensures
            r == self@.len(),
    {
        self.resources.len()
    }

    /// The resource at an index, in listing order.
    pub fn get(&self, i: usize) -> (r: &Resource)
        requires
            i < self@.len(),
        ensures
            r@ == self@[i as int],
    {
        &self.resources[i]
    }

    /// Looks a resource up by its exact name.
    pub fn lookup<'a>(&'a self, name: &str) -> (r: Option<&'a Resource>)
        ensures
            match r {
                Some(res) => res@.name == name@
                    && exists|i: int| 0 <= i < self@.len() && #[trigger] self@[i] == res@,
                None => forall|i: int| 0 <= i < self@.len() ==> (#[trigger] self@[i]).name != name@,
            },
    {
        let n = self.resources.len();
        let mut idx: usize = 0;
        while idx < n
            invariant
                idx <= n,
                n == self@.len(),
                forall|i: int| 0 <= i < idx ==> (#[trigger] self@[i]).name != name@,
            decreases n - idx,
        {
            let res = &self.resources[idx];
            if str_eq(res.name.as_str(), name) {
                proof {
                    assert(self@[idx as int] == res@);
                }
                return Some(res);
            }
            idx = idx + 1;
        }
        None
    }

    /// Picks one cataloged resource uniformly at random. The catalog is
    /// never empty, so a pick always exists; whatever index the draw gives,
    /// the result is a cataloged resource.
    pub fn pick_random<'a>(&'a self) -> (r: &'a Resource)
        requires
            self.wf(),
        ensures
            exists|i: int| 0 <= i < self@.len() && #[trigger] self@[i] == r@,
    {
        let i = random_index(self.resources.len());
        let res = &self.resources[i];
        proof {
            assert(self@[i as int] == res@);
        }
        res
    }
}

/// Character-for-character string equality.
pub fn str_eq(a: &str, b: &str) -> (r: bool)
    ensures
        r == (a@ == b@),
{
    let n = a.unicode_len();
    if n != b.unicode_len() {
        return false;
    }
    let mut idx: usize = 0;
    while idx < n
        invariant
            idx <= n,
            n == a@.len(),
            n == b@.len(),
            forall|i: int| 0 <= i < idx ==> a@[i] == b@[i],
        decreases n - idx,
    {
        if a.get_char(idx) != b.get_char(idx) {
            return false;
        }
        idx = idx + 1;
    }
    proof {
        assert(a@ =~= b@);
    }
    true
}

} // verus!

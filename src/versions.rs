//! The record of installed toolkit versions and which of them is active.
use vstd::prelude::*;
use crate::error::{CudaMgrError, VersionError};

verus! {

/// An installed version. `install_date` is in seconds since the Unix epoch.
#[derive(Debug, PartialEq)]
pub struct VersionInfo {
    pub version: String,
    pub install_path: String,
    pub is_active: bool,
    pub install_date: i64,
    pub size_bytes: u64,
}

/// The view of an installed version.
pub struct VersionInfoView {
    pub version: Seq<char>,
    pub install_path: Seq<char>,
    pub is_active: bool,
    pub install_date: i64,
    pub size_bytes: u64,
}

impl View for VersionInfo {
    type V = VersionInfoView;

    open spec fn view(&self) -> VersionInfoView {
        VersionInfoView {
            version: self.version@,
            install_path: self.install_path@,
            is_active: self.is_active,
            install_date: self.install_date,
            size_bytes: self.size_bytes,
        }
    }
}

impl Clone for VersionInfo {
    fn clone(&self) -> (r: Self)
        ensures
            r@ == self@,
    {
        VersionInfo {
            version: self.version.clone(),
            install_path: self.install_path.clone(),
            is_active: self.is_active,
            install_date: self.install_date,
            size_bytes: self.size_bytes,
        }
    }
}

pub open spec fn info_views(v: Seq<VersionInfo>) -> Seq<VersionInfoView> {
    v.map_values(|x: VersionInfo| x@)
}

/// The entries of `vs` other than those of version `v`, in order.
pub open spec fn without_version(vs: Seq<VersionInfoView>, v: Seq<char>) -> Seq<VersionInfoView>
    decreases vs.len(),
{
    if vs.len() == 0 {
        vs
    } else if vs.last().version == v {
        without_version(vs.drop_last(), v)
    } else {
        without_version(vs.drop_last(), v).push(vs.last())
    }
}

/// `vs` with exactly the entries of version `v` marked active.
pub open spec fn activated(vs: Seq<VersionInfoView>, v: Seq<char>) -> Seq<VersionInfoView> {
    vs.map_values(
        |x: VersionInfoView|
            VersionInfoView {
                version: x.version,
                install_path: x.install_path,
                is_active: x.version == v,
                install_date: x.install_date,
                size_bytes: x.size_bytes,
            },
    )
}

pub open spec fn has_version(vs: Seq<VersionInfoView>, v: Seq<char>) -> bool {
    exists|i: int| 0 <= i < vs.len() && #[trigger] vs[i].version == v
}

/// The installed versions.
#[derive(Debug, Clone, PartialEq)]
pub struct VersionRegistry {
    pub versions: Vec<VersionInfo>,
    pub active_version: Option<String>,
    pub registry_path: String,
}

fn not_found(version: &str) -> (r: CudaMgrError)
    ensures
        r is Version && r->Version_0 is NotFound,
{
    let mut m = String::from_str("Version ");
    m.append(version);
    m.append(" not found in registry");
    CudaMgrError::Version(VersionError::NotFound(m))
}

impl VersionRegistry {
    /// An empty registry kept at `registry_path`.
    pub fn new(registry_path: String) -> (r: Self)
        ensures
            r.versions@.len() == 0,
            r.active_version is None,
            r.registry_path == registry_path,
    {
        VersionRegistry { versions: Vec::new(), active_version: None, registry_path }
    }

    /// Records an installed version.
    pub fn add_version(&mut self, version_info: VersionInfo)
        ensures
            final(self).versions@ == old(self).versions@.push(version_info),
            final(self).active_version == old(self).active_version,
            final(self).registry_path == old(self).registry_path,
    {
        self.versions.push(version_info);
    }

    /// Removes every entry of `version`, and clears the active version where
    /// it was that one. `NotFound` where there is no such entry, nothing
    /// changed.
    pub fn remove_version(&mut self, version: &str) -> (r: Result<(), CudaMgrError>)
        ensures
            !has_version(info_views(old(self).versions@), version@) ==> r is Err
                && r->Err_0 is Version && *final(self) == *old(self),
            has_version(info_views(old(self).versions@), version@) ==> r is Ok && info_views(
                final(self).versions@,
            ) == without_version(info_views(old(self).versions@), version@)
                && final(self).registry_path == old(self).registry_path && match old(self).active_version {
                Some(a) => if a@ == version@ {
                    final(self).active_version is None
                } else {
                    final(self).active_version == old(self).active_version
                },
                None => final(self).active_version is None,
            },
    {
        let target = String::from_str(version);
        let ghost old_views = info_views(self.versions@);
        let mut kept: Vec<VersionInfo> = Vec::new();
        let mut found = false;
        let mut i: usize = 0;
        while i < self.versions.len()
            invariant
                i <= self.versions@.len(),
                target@ == version@,
                old_views == info_views(self.versions@),
                info_views(kept@) == without_version(old_views.take(i as int), version@),
                found == has_version(old_views.take(i as int), version@),
            decreases self.versions.len() - i,
        {
            assert(old_views.take(i + 1).drop_last() =~= old_views.take(i as int));
            assert(old_views.take(i + 1).last() == self.versions@[i as int]@);
            if self.versions[i].version == target {
                found = true;
                assert(old_views.take(i + 1)[i as int].version == version@);
            } else {
                let ghost before = info_views(kept@);
                let c = self.versions[i].clone();
                kept.push(c);
                assert(info_views(kept@) =~= before.push(self.versions@[i as int]@));
                assert(has_version(old_views.take(i + 1), version@) == has_version(
                    old_views.take(i as int),
                    version@,
                )) by {
                    if has_version(old_views.take(i + 1), version@) {
                        let k = choose|k: int|
                            0 <= k < old_views.take(i + 1).len() && #[trigger] old_views.take(
                                i + 1,
                            )[k].version == version@;
                        assert(old_views.take(i as int)[k].version == version@);
                    }
                    if has_version(old_views.take(i as int), version@) {
                        let k = choose|k: int|
                            0 <= k < old_views.take(i as int).len() && #[trigger] old_views.take(
                                i as int,
                            )[k].version == version@;
                        assert(old_views.take(i + 1)[k].version == version@);
                    }
                }
            }
            i += 1;
        }
        assert(old_views.take(old_views.len() as int) =~= old_views);
        if !found {
            return Err(not_found(version));
        }
        self.versions = kept;
        let clear = match &self.active_version {
            Some(a) => *a == target,
            None => false,
        };
        if clear {
            self.active_version = None;
        }
        Ok(())
    }

    /// Makes `version` the active one: exactly its entries are marked
    /// active. `NotFound` where there is no such entry, nothing changed.
    pub fn set_active_version(&mut self, version: &str) -> (r: Result<(), CudaMgrError>)
        ensures
            !has_version(info_views(old(self).versions@), version@) ==> r is Err
                && r->Err_0 is Version && *final(self) == *old(self),
            has_version(info_views(old(self).versions@), version@) ==> r is Ok && info_views(
                final(self).versions@,
            ) == activated(info_views(old(self).versions@), version@) && opt_string(
                final(self).active_version,
            ) == Some(version@) && final(self).registry_path == old(self).registry_path,
    {
        let target = String::from_str(version);
        let ghost old_views = info_views(self.versions@);
        let mut marked: Vec<VersionInfo> = Vec::new();
        let mut found = false;
        let mut i: usize = 0;
        while i < self.versions.len()
            invariant
                i <= self.versions@.len(),
                target@ == version@,
                old_views == info_views(self.versions@),
                info_views(marked@) == activated(old_views.take(i as int), version@),
                found == has_version(old_views.take(i as int), version@),
            decreases self.versions.len() - i,
        {
            let mut c = self.versions[i].clone();
            let same = c.version == target;
            if same {
                found = true;
                assert(old_views.take(i + 1)[i as int].version == version@);
            } else {
                assert(has_version(old_views.take(i + 1), version@) == has_version(
                    old_views.take(i as int),
                    version@,
                )) by {
                    if has_version(old_views.take(i + 1), version@) {
                        let k = choose|k: int|
                            0 <= k < old_views.take(i + 1).len() && #[trigger] old_views.take(
                                i + 1,
                            )[k].version == version@;
                        assert(old_views.take(i as int)[k].version == version@);
                    }
                    if has_version(old_views.take(i as int), version@) {
                        let k = choose|k: int|
                            0 <= k < old_views.take(i as int).len() && #[trigger] old_views.take(
                                i as int,
                            )[k].version == version@;
                        assert(old_views.take(i + 1)[k].version == version@);
                    }
                }
            }
            c.is_active = same;
            let ghost before = info_views(marked@);
            marked.push(c);
            assert(info_views(marked@) =~= before.push(c@));
            assert(activated(old_views.take(i + 1), version@) =~= activated(
                old_views.take(i as int),
                version@,
            ).push(c@));
            i += 1;
        }
        assert(old_views.take(old_views.len() as int) =~= old_views);
        if !found {
            return Err(not_found(version));
        }
        self.versions = marked;
        self.active_version = Some(target);
        Ok(())
    }

    /// The first entry of `version`.
    pub fn get_version(&self, version: &str) -> (r: Option<&VersionInfo>)
        ensures
            match r {
                Some(v) => v.version@ == version@ && exists|i: int|
                    0 <= i < self.versions@.len() && self.versions@[i] == *v && forall|j: int|
                        0 <= j < i ==> #[trigger] self.versions@[j].version@ != version@,
                None => !has_version(info_views(self.versions@), version@),
            },
    {
        let target = String::from_str(version);
        let mut i: usize = 0;
        while i < self.versions.len()
            invariant
                i <= self.versions@.len(),
                target@ == version@,
                forall|j: int| 0 <= j < i ==> #[trigger] self.versions@[j].version@ != version@,
            decreases self.versions.len() - i,
        {
            if self.versions[i].version == target {
                return Some(&self.versions[i]);
            }
            i += 1;
        }
        assert(!has_version(info_views(self.versions@), version@)) by {
            if has_version(info_views(self.versions@), version@) {
                let k = choose|k: int|
                    0 <= k < info_views(self.versions@).len() && #[trigger] info_views(
                        self.versions@,
                    )[k].version == version@;
                assert(self.versions@[k].version@ == version@);
            }
        }
        None
    }
}

pub open spec fn opt_string(o: Option<String>) -> Option<Seq<char>> {
    crate::registry::opt_view(o)
}

} // verus!

//! `jolt.lock`: the packages a project installed, each with its version,
//! checksum and transitive dependencies, one entry per package name.
use vstd::prelude::*;
use crate::packaging::jar::distinct;

verus! {

/// One locked package.
#[derive(Debug)]
pub struct LockedPackage {
    /// `groupId:artifactId`.
    pub name: String,
    /// `version` or `version:classifier`.
    pub version: String,
    pub checksum: String,
    /// The `groupId:artifactId` of its transitive dependencies.
    pub dependencies: Vec<String>,
}

/// The lock file of a project.
#[derive(Debug)]
pub struct JoltLock {
    pub packages: Vec<LockedPackage>,
}

pub open spec fn package_names(ps: Seq<LockedPackage>) -> Seq<Seq<char>> {
    ps.map_values(|p: LockedPackage| p.name@)
}

impl JoltLock {
    /// No package name occurs twice.
    pub open spec fn wf(&self) -> bool {
        distinct(package_names(self.packages@))
    }

    /// An empty lock.
    pub fn new() -> (l: Self)
        ensures
            l.wf(),
            l.packages@.len() == 0,
    {
        JoltLock { packages: Vec::new() }
    }

    fn position_of(&self, name: &str) -> (r: Option<usize>)
        ensures
            match r {
                Some(i) => i < self.packages@.len() && self.packages@[i as int].name@ == name@,
                None => !package_names(self.packages@).contains(name@),
            },
    {
        let mut i: usize = 0;
        while i < self.packages.len()
            invariant
                i <= self.packages@.len(),
                forall|k: int| 0 <= k < i ==> self.packages@[k].name@ != name@,
            decreases self.packages.len() - i,
        {
            let n = crate::text::copy_string(name);
            if self.packages[i].name == n {
                return Some(i);
            }
            i += 1;
        }
        proof {
            if package_names(self.packages@).contains(name@) {
                let k = choose|k: int|
                    0 <= k < package_names(self.packages@).len() && package_names(self.packages@)[k]
                        == name@;
                assert(self.packages@[k].name@ == name@);
            }
        }
        None
    }

    /// Records a package: it replaces the entry of the same name, or is
    /// appended when there is none.
    pub fn add_or_update_package(&mut self, pkg: LockedPackage)
        requires
            old(self).wf(),
        ensures
            final(self).wf(),
            package_names(old(self).packages@).contains(pkg.name@) ==> exists|i: int|
                0 <= i < old(self).packages@.len() && old(self).packages@[i].name@ == pkg.name@
                    && final(self).packages@ == old(self).packages@.update(i, pkg),
            !package_names(old(self).packages@).contains(pkg.name@) ==> final(self).packages@
                == old(self).packages@.push(pkg),
    {
        let ghost old_packages = self.packages@;
        match self.position_of(pkg.name.as_str()) {
            Some(i) => {
                let ghost name = pkg.name@;
                assert(package_names(old_packages)[i as int] == name);
                self.packages.set(i, pkg);
                assert(package_names(self.packages@) =~= package_names(old_packages));
                assert(package_names(old_packages).contains(name));
            },
            None => {
                let ghost name = pkg.name@;
                self.packages.push(pkg);
                assert(package_names(self.packages@) =~= package_names(old_packages).push(name));
                assert forall|a: int, b: int|
                    0 <= a < b < package_names(self.packages@).len() implies package_names(
                    self.packages@,
                )[a] != package_names(self.packages@)[b] by {
                    if b == old_packages.len() {
                        assert(package_names(old_packages)[a] == package_names(self.packages@)[a]);
                    }
                }
            },
        }
    }

    /// Removes the package of that name; `true` when there was one.
    pub fn remove_package(&mut self, name: &str) -> (removed: bool)
        requires
            old(self).wf(),
        ensures
            final(self).wf(),
            removed == package_names(old(self).packages@).contains(name@),
            !package_names(final(self).packages@).contains(name@),
            removed ==> exists|i: int|
                0 <= i < old(self).packages@.len() && old(self).packages@[i].name@ == name@
                    && final(self).packages@ == old(self).packages@.remove(i),
            !removed ==> final(self).packages@ == old(self).packages@,
    {
        let ghost old_packages = self.packages@;
        match self.position_of(name) {
            Some(i) => {
                self.packages.remove(i);
                assert(package_names(self.packages@) =~= package_names(old_packages).remove(
                    i as int,
                ));
                assert(package_names(old_packages)[i as int] == name@);
                proof {
                    if package_names(self.packages@).contains(name@) {
                        let k = choose|k: int|
                            0 <= k < package_names(self.packages@).len() && package_names(
                                self.packages@,
                            )[k] == name@;
                        if k < i {
                            assert(package_names(old_packages)[k] == name@);
                        } else {
                            assert(package_names(old_packages)[k + 1] == name@);
                        }
                    }
                }
                true
            },
            None => false,
        }
    }
}

} // verus!

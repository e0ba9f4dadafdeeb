//! Paths derived from an installed toolchain's directory, by path-joining
//! alone.
use vstd::prelude::*;

verus! {

/// Joins one further component onto a path with a `/` separator.
pub fn path_join(base: &str, component: &str) -> (r: String)
    ensures
        r@ == base@ + "/"@ + component@,
{
    let mut s = String::new();
    s.append(base);
    s.append("/");
    s.append(component);
    proof {
        assert(s@ =~= base@ + "/"@ + component@);
    }
    s
}

/// A toolchain installed under a directory on this system.
#[derive(Debug)]
pub struct InstalledToolchain {
    pub path: String,
}

impl InstalledToolchain {
    pub fn new(path: String) -> (r: InstalledToolchain)
        ensures
            r.path == path,
    {
        InstalledToolchain { path }
    }

    /// The directory of binaries that run on the host, such as the compiler.
    pub fn host_bin_dir(&self) -> (r: String)
        ensures
            r@ == self.path@ + "/"@ + "bin"@,
    {
        path_join(self.path.as_str(), "bin")
    }

    /// The directory of support libraries.
    pub fn lib_dir(&self) -> (r: String)
        ensures
            r@ == self.path@ + "/"@ + "lib"@,
    {
        path_join(self.path.as_str(), "lib")
    }

    /// The multilib root: per-target libraries and the manifest describing
    /// their sub-directories.
    pub fn multilib_dir(&self) -> (r: String)
        ensures
            r@ == self.path@ + "/"@ + "lib"@ + "/"@ + "clang-runtimes"@,
    {
        let lib = self.lib_dir();
        path_join(lib.as_str(), "clang-runtimes")
    }

    /// The directory of static libraries for one target, named by its triple
    /// and variant.
    pub fn target_lib_dir(&self, triple: &str, variant: &str) -> (r: String)
        ensures
            r@ == self.path@ + "/"@ + "lib"@ + "/"@ + "clang-runtimes"@ + "/"@ + triple@ + "/"@
                + variant@ + "/"@ + "lib"@,
    {
        let m = self.multilib_dir();
        let t = path_join(m.as_str(), triple);
        let v = path_join(t.as_str(), variant);
        path_join(v.as_str(), "lib")
    }

    /// The header directories for one target: the variant's own include
    /// directory, then the triple-wide one.
    pub fn target_include_dirs(&self, triple: &str, variant: &str) -> (r: Vec<String>)
        ensures
            r@.len() == 2,
            r@[0]@ == self.path@ + "/"@ + "lib"@ + "/"@ + "clang-runtimes"@ + "/"@ + triple@ + "/"@
                + variant@ + "/"@ + "include"@,
            r@[1]@ == self.path@ + "/"@ + "lib"@ + "/"@ + "clang-runtimes"@ + "/"@ + triple@ + "/"@
                + "include"@,
    {
        let m = self.multilib_dir();
        let t = path_join(m.as_str(), triple);
        let v = path_join(t.as_str(), variant);
        let mut dirs: Vec<String> = Vec::new();
        dirs.push(path_join(v.as_str(), "include"));
        dirs.push(path_join(t.as_str(), "include"));
        dirs
    }
}

} // verus!

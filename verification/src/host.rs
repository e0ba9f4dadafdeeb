//! The host platform: operating system and architecture tokens used to pick
//! a release asset that can run here.
use vstd::prelude::*;

verus! {

#[derive(Debug, Clone, Copy, PartialEq, Eq, Structural)]
pub enum HostOS {
    Darwin,
    Linux,
    Windows,
}

impl HostOS {
    /// The token this operating system contributes to asset file names.
    pub open spec fn token_spec(self) -> Seq<char> {
        match self {
            HostOS::Darwin => "Darwin"@,
            HostOS::Linux => "Linux"@,
            HostOS::Windows => "Windows"@,
        }
    }

    pub fn token(self) -> (r: &'static str)
        ensures
            r@ == self.token_spec(),
    {
        match self {
            HostOS::Darwin => "Darwin",
            HostOS::Linux => "Linux",
            HostOS::Windows => "Windows",
        }
    }

    /// The operating system this build runs on. Verified code offers no
    /// conditional compilation, so the crate is built for Linux hosts.
    pub fn current() -> (r: HostOS)
        ensures
            r == HostOS::Linux,
    {
        HostOS::Linux
    }
}

#[derive(Debug, Clone, Copy, PartialEq, Eq, Structural)]
pub enum HostArch {
    /// A universal binary, acceptable on either macOS architecture.
    Universal,
    AAarch64,
    X86_64,
}

impl HostArch {
    /// The token this architecture contributes to asset file names.
    pub open spec fn token_spec(self) -> Seq<char> {
        match self {
            HostArch::Universal => "universal"@,
            HostArch::AAarch64 => "AAarch64"@,
            HostArch::X86_64 => "x86_64"@,
        }
    }

    pub fn token(self) -> (r: &'static str)
        ensures
            r@ == self.token_spec(),
    {
        match self {
            HostArch::Universal => "universal",
            HostArch::AAarch64 => "AAarch64",
            HostArch::X86_64 => "x86_64",
        }
    }

    /// The architectures whose assets can run on this host. Verified code
    /// offers no conditional compilation, so the crate is built for x86-64
    /// hosts.
    pub fn current() -> (r: Vec<HostArch>)
        ensures
            r@ == seq![HostArch::X86_64],
    {
        let mut v: Vec<HostArch> = Vec::new();
        v.push(HostArch::X86_64);
        proof {
            assert(v@ =~= seq![HostArch::X86_64]);
        }
        v
    }
}

} // verus!
